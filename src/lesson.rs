//! Builds practice lessons: a chain of randomly picked n-grams, each followed
//! by a space, repeated a number of times, with trailing whitespace removed.

use rand::Rng;
use vstd::prelude::*;
use vstd::string::*;

verus! {

/// Unicode's White_Space property.
pub open spec fn white_space(c: char) -> bool {
    ('\u{9}' <= c && c <= '\u{d}') || c == ' ' || c == '\u{85}' || c == '\u{a0}'
        || c == '\u{1680}' || ('\u{2000}' <= c && c <= '\u{200a}') || c == '\u{2028}'
        || c == '\u{2029}' || c == '\u{202f}' || c == '\u{205f}' || c == '\u{3000}'
}

/// Relies on char::is_whitespace: true exactly for the White_Space characters.
#[verifier::external_body]
fn is_white_space(c: char) -> (r: bool)
    ensures
        r == white_space(c),
{
    c.is_whitespace()
}

/// Relies on rand's Rng::gen_range on the thread-local generator: a value in
/// `0..n` (it panics on an empty range, which `requires` rules out).
#[verifier::external_body]
fn random_index(n: usize) -> (r: usize)
    requires
        n > 0,
    ensures
        r < n,
{
    rand::thread_rng().gen_range(0..n)
}

/// The candidate pool: the first `top` n-grams, or all of them if there are fewer.
pub open spec fn pool_of(ngrams: Seq<Seq<char>>, top: nat) -> Seq<Seq<char>> {
    if top <= ngrams.len() {
        ngrams.take(top as int)
    } else {
        ngrams
    }
}

/// The picked n-grams, each followed by one space.
pub open spec fn chain(pool: Seq<Seq<char>>, picks: Seq<usize>) -> Seq<char>
    decreases picks.len(),
{
    if picks.len() == 0 {
        Seq::empty()
    } else {
        chain(pool, picks.drop_last()) + pool[picks.last() as int] + seq![' ']
    }
}

/// `s` written `n` times back to back.
pub open spec fn repeat(s: Seq<char>, n: nat) -> Seq<char>
    decreases n,
{
    if n == 0 {
        Seq::empty()
    } else {
        repeat(s, (n - 1) as nat) + s
    }
}

/// `s` without its trailing whitespace.
pub open spec fn trim_end(s: Seq<char>) -> Seq<char>
    decreases s.len(),
{
    if s.len() > 0 && white_space(s.last()) {
        trim_end(s.drop_last())
    } else {
        s
    }
}

/// The lesson made of the n-grams at `picks`, chained and repeated `rep` times.
pub open spec fn lesson_text(pool: Seq<Seq<char>>, picks: Seq<usize>, rep: nat) -> Seq<char> {
    trim_end(repeat(chain(pool, picks), rep))
}

/// Every pick indexes the pool.
pub open spec fn picks_in(picks: Seq<usize>, n: nat) -> bool {
    forall|i: int| 0 <= i < picks.len() ==> (#[trigger] picks[i]) < n
}

/// The text of each string.
pub open spec fn strings_view(v: Seq<String>) -> Seq<Seq<char>> {
    v.map_values(|s: String| s@)
}

/// The text of each character vector.
pub open spec fn chars_view(v: Seq<Vec<char>>) -> Seq<Seq<char>> {
    v.map_values(|c: Vec<char>| c@)
}

/// The characters of `s`.
pub fn chars_of(s: &String) -> (r: Vec<char>)
    ensures
        r@ == s@,
{
    let t = s.as_str();
    let n = t.unicode_len();
    let mut r: Vec<char> = Vec::new();
    let mut i: usize = 0;
    while i < n
        invariant
            n == t@.len(),
            t@ == s@,
            i <= n,
            r@ == t@.take(i as int),
        decreases n - i,
    {
        r.push(t.get_char(i));
        i = i + 1;
        assert(r@ =~= t@.take(i as int));
    }
    assert(r@ =~= t@);
    r
}

/// The first `top` n-grams (all of them when there are fewer), as characters.
pub fn top_pool(ngrams: &Vec<String>, top: usize) -> (r: Vec<Vec<char>>)
    ensures
        chars_view(r@) == pool_of(strings_view(ngrams@), top as nat),
{
    let n = if top < ngrams.len() { top } else { ngrams.len() };
    let mut r: Vec<Vec<char>> = Vec::new();
    let mut i: usize = 0;
    while i < n
        invariant
            n <= ngrams.len(),
            n == top || n == ngrams.len(),
            n <= top,
            i <= n,
            r@.len() == i,
            forall|j: int| 0 <= j < i ==> (#[trigger] r@[j])@ == ngrams@[j]@,
        decreases n - i,
    {
        let cs = chars_of(&ngrams[i]);
        r.push(cs);
        i = i + 1;
    }
    assert(chars_view(r@) =~= pool_of(strings_view(ngrams@), top as nat));
    r
}

/// Appends `pool[picks[k]]` and a space for every pick, in order.
fn build_chain(pool: &Vec<Vec<char>>, picks: &Vec<usize>) -> (r: Vec<char>)
    requires
        picks_in(picks@, pool@.len()),
    ensures
        r@ == chain(chars_view(pool@), picks@),
{
    let mut ch: Vec<char> = Vec::new();
    let mut i: usize = 0;
    while i < picks.len()
        invariant
            i <= picks.len(),
            picks_in(picks@, pool@.len()),
            ch@ == chain(chars_view(pool@), picks@.take(i as int)),
        decreases picks.len() - i,
    {
        let ng = &pool[picks[i]];
        let ghost before = ch@;
        let mut j: usize = 0;
        while j < ng.len()
            invariant
                j <= ng@.len(),
                ch@ == before + ng@.take(j as int),
            decreases ng.len() - j,
        {
            ch.push(ng[j]);
            j = j + 1;
            assert(ch@ =~= before + ng@.take(j as int));
        }
        ch.push(' ');
        proof {
            let pk = picks@.take(i + 1);
            assert(pk.drop_last() =~= picks@.take(i as int));
            assert(ng@.take(j as int) =~= ng@);
            assert(chars_view(pool@)[pk.last() as int] == ng@);
            assert(ch@ =~= chain(chars_view(pool@), pk));
        }
        i = i + 1;
    }
    assert(picks@.take(i as int) =~= picks@);
    ch
}

/// `s` written `n` times back to back.
fn build_repeat(s: &Vec<char>, n: usize) -> (r: Vec<char>)
    ensures
        r@ == repeat(s@, n as nat),
{
    let mut out: Vec<char> = Vec::new();
    let mut k: usize = 0;
    while k < n
        invariant
            k <= n,
            out@ == repeat(s@, k as nat),
        decreases n - k,
    {
        let ghost before = out@;
        let mut j: usize = 0;
        while j < s.len()
            invariant
                j <= s@.len(),
                out@ == before + s@.take(j as int),
            decreases s.len() - j,
        {
            out.push(s[j]);
            j = j + 1;
            assert(out@ =~= before + s@.take(j as int));
        }
        assert(s@.take(j as int) =~= s@);
        k = k + 1;
    }
    out
}

/// Removes the trailing whitespace of `s`.
fn trim_trailing(s: &mut Vec<char>)
    ensures
        final(s)@ == trim_end(old(s)@),
{
    loop
        invariant
            trim_end(s@) == trim_end(old(s)@),
        ensures
            s@ == trim_end(old(s)@),
        decreases s@.len(),
    {
        if s.len() == 0 {
            assert(trim_end(s@) == s@);
            break;
        }
        let last = s[s.len() - 1];
        if !is_white_space(last) {
            assert(trim_end(s@) == s@);
            break;
        }
        let ghost before = s@;
        s.pop();
        assert(s@ =~= before.drop_last());
    }
}

/// The lesson made of the n-grams of `pool` at `picks`, repeated `rep` times.
pub fn build_lesson(pool: &Vec<Vec<char>>, picks: &Vec<usize>, rep: usize) -> (r: Vec<char>)
    requires
        picks_in(picks@, pool@.len()),
    ensures
        r@ == lesson_text(chars_view(pool@), picks@, rep as nat),
{
    let ch = build_chain(pool, picks);
    let mut out = build_repeat(&ch, rep);
    trim_trailing(&mut out);
    out
}

/// With `top` at least the number of n-grams, the pool is all of them.
pub proof fn lemma_pool_takes_all(ngrams: Seq<Seq<char>>, top: nat)
    requires
        top >= ngrams.len(),
    ensures
        pool_of(ngrams, top) == ngrams,
{
    assert(ngrams.take(ngrams.len() as int) =~= ngrams);
}

/// Whether picks can be drawn: any pick needs a non-empty pool.
pub open spec fn can_pick(n_ngrams: nat, top: nat, combi: nat) -> bool {
    combi > 0 ==> top > 0 && n_ngrams > 0
}

/// A new lesson: `combi` n-grams drawn at random, with repeats, from the first
/// `top` of `ngrams`, chained and written `rep` times, trailing whitespace removed.
pub fn generate_lesson_string(top: usize, combi: usize, rep: usize, ngrams: &Vec<String>) -> (r:
    Vec<char>)
    requires
        can_pick(ngrams@.len(), top as nat, combi as nat),
    ensures
        exists|picks: Seq<usize>|
            #![trigger lesson_text(pool_of(strings_view(ngrams@), top as nat), picks, rep as nat)]
            picks.len() == combi && picks_in(
                picks,
                pool_of(strings_view(ngrams@), top as nat).len(),
            ) && r@ == lesson_text(pool_of(strings_view(ngrams@), top as nat), picks, rep as nat),
{
    let pool = top_pool(ngrams, top);
    assert(chars_view(pool@).len() == pool@.len());
    assert(strings_view(ngrams@).len() == ngrams@.len());
    let mut picks: Vec<usize> = Vec::new();
    let mut i: usize = 0;
    while i < combi
        invariant
            i <= combi,
            picks@.len() == i,
            combi > 0 ==> pool@.len() > 0,
            picks_in(picks@, pool@.len()),
        decreases combi - i,
    {
        let k = random_index(pool.len());
        picks.push(k);
        i = i + 1;
    }
    let r = build_lesson(&pool, &picks, rep);
    assert(r@ == lesson_text(pool_of(strings_view(ngrams@), top as nat), picks@, rep as nat));
    r
}

/// An n-gram that a lesson can be made of: not empty, and free of whitespace.
pub open spec fn plain_ngram(s: Seq<char>) -> bool {
    s.len() > 0 && forall|i: int| 0 <= i < s.len() ==> !white_space(#[trigger] s[i])
}

proof fn lemma_chain_ends(pool: Seq<Seq<char>>, picks: Seq<usize>)
    requires
        picks.len() > 0,
        picks_in(picks, pool.len()),
        forall|i: int| 0 <= i < pool.len() ==> plain_ngram(#[trigger] pool[i]),
    ensures
        chain(pool, picks).len() >= 2,
        chain(pool, picks).last() == ' ',
        !white_space(chain(pool, picks).drop_last().last()),
{
    let last = pool[picks.last() as int];
    assert(picks[picks.len() - 1] < pool.len());
    assert(plain_ngram(last));
    let c = chain(pool, picks);
    let pre = chain(pool, picks.drop_last());
    assert(c == pre + last + seq![' ']);
    assert(c.drop_last() =~= pre + last);
    assert(!white_space(last[last.len() - 1]));
}

proof fn lemma_repeat_ends(s: Seq<char>, n: nat)
    requires
        n > 0,
    ensures
        repeat(s, n) == repeat(s, (n - 1) as nat) + s,
{
}

/// A lesson drawn from whitespace-free, non-empty n-grams, with at least one
/// pick and one repetition, is non-empty, does not end in whitespace, and is
/// exactly the repeated chain of n-grams and single spaces without its final space.
pub proof fn lemma_lesson_shape(pool: Seq<Seq<char>>, picks: Seq<usize>, rep: nat)
    requires
        picks.len() >= 1,
        rep >= 1,
        picks_in(picks, pool.len()),
        forall|i: int| 0 <= i < pool.len() ==> plain_ngram(#[trigger] pool[i]),
    ensures
        lesson_text(pool, picks, rep).len() > 0,
        !white_space(lesson_text(pool, picks, rep).last()),
        lesson_text(pool, picks, rep) + seq![' '] == repeat(chain(pool, picks), rep),
{
    let c = chain(pool, picks);
    lemma_chain_ends(pool, picks);
    lemma_repeat_ends(c, rep);
    let full = repeat(c, rep);
    let pre = repeat(c, (rep - 1) as nat);
    assert(full.last() == ' ');
    assert(full.drop_last() =~= pre + c.drop_last());
    assert(full.drop_last().last() == c.drop_last().last());
    assert(trim_end(full.drop_last()) == full.drop_last());
    assert(trim_end(full) == trim_end(full.drop_last()));
    assert(full.drop_last() + seq![' '] =~= full);
}

} // verus!
