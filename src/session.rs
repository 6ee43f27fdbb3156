//! The session record and the per-frame step: key handling, then completion
//! check, scoring and the next lesson.

use crate::keys::{action_of, classify, Action, KeyInput};
use crate::lesson::{can_pick, generate_lesson_string, lesson_text, picks_in, pool_of, strings_view};
use crate::metrics::{acc_score, accuracy, count_non_space, elapsed_ms, mean, mean_of, non_space_count, wpm, wpm_score};
use vstd::prelude::*;

verus! {

/// Lesson settings: pool size, n-grams per chain, and chain repetitions.
pub struct Args {
    pub top: usize,
    pub combi: usize,
    pub rep: usize,
}

/// The state of one typing session.
pub struct AppState {
    /// N-grams ranked by descending frequency.
    pub ngrams: Vec<String>,
    /// The text to type; empty while no lesson is active.
    pub current_lesson_string: Vec<char>,
    /// What has been typed of the current lesson.
    pub current_typed_string: Vec<char>,
    /// How many lessons have been started (saturating at `usize::MAX`).
    pub current_lesson_number: usize,
    /// Clock reading, in milliseconds, at the first keystroke of the lesson.
    pub wpm_start_time: u64,
    /// Character keystrokes of the lesson (saturating at `u64::MAX`).
    pub acc_key_hits: u64,
    /// Character keystrokes of the lesson that did not match the lesson there
    /// (saturating at `u64::MAX`).
    pub acc_key_misses: u64,
    /// Words per minute of each scored lesson.
    pub wpm_history: Vec<u32>,
    /// Accuracy, in percent, of each scored lesson.
    pub acc_history: Vec<u32>,
    /// Integer mean of `wpm_history`.
    pub average_wpm: u32,
    /// Integer mean of `acc_history`.
    pub average_accuracy: u32,
    /// Scored lessons that reached both thresholds.
    pub succeeded_lessons: usize,
    /// Scored lessons that missed a threshold.
    pub failed_lessons: usize,
    /// Words per minute a lesson must reach to pass.
    pub need_wpm: u32,
    /// Accuracy a lesson must reach to pass.
    pub need_acc: u32,
    /// Whether typed characters go through the keyboard-layout translation.
    pub use_emulation: bool,
}

/// Whether `c` has Unicode's Alphabetic property.
pub uninterp spec fn alphabetic(c: char) -> bool;

/// Relies on char::is_alphabetic: whether `c` has Unicode's Alphabetic property.
#[verifier::external_body]
fn is_alphabetic(c: char) -> (r: bool)
    ensures
        r == alphabetic(c),
{
    c.is_alphabetic()
}

/// One more, unless already at the largest value.
pub open spec fn sat_inc(x: u64) -> u64 {
    if x < u64::MAX {
        (x + 1) as u64
    } else {
        x
    }
}

/// One past the index of the last space before position `n` of `t`, or 0.
pub open spec fn word_start(t: Seq<char>, n: int) -> int
    decreases n,
{
    if n <= 0 {
        0
    } else if t[n - 1] == ' ' {
        n
    } else {
        word_start(t, n - 1)
    }
}

/// `t` without its last word: cut after the last space that precedes the
/// final character, or to nothing if there is none.
pub open spec fn delete_word(t: Seq<char>) -> Seq<char> {
    if t.len() == 0 {
        t
    } else {
        t.take(word_start(t, t.len() - 1))
    }
}

/// Whether an inserted character is taken: a letter or a space, while the
/// typed text is shorter than the lesson.
pub open spec fn accepts(c: char, letter: bool, typed_len: nat, lesson_len: nat) -> bool {
    (letter || c == ' ') && typed_len < lesson_len
}

/// Whether `a` appends a character to the typed text.
pub open spec fn inserts(a: Action, letter: bool, typed: Seq<char>, lesson: Seq<char>) -> bool {
    match a {
        Action::Insert(c) => accepts(c, letter, typed.len(), lesson.len()),
        _ => false,
    }
}

/// The typed text after action `a`.
pub open spec fn typed_after(a: Action, letter: bool, typed: Seq<char>, lesson: Seq<char>) -> Seq<
    char,
> {
    match a {
        Action::DeleteWord => delete_word(typed),
        Action::Clear => Seq::empty(),
        Action::DeleteChar => if typed.len() > 0 {
            typed.drop_last()
        } else {
            typed
        },
        Action::InsertSpace => typed.push(' '),
        Action::Insert(c) => if accepts(c, letter, typed.len(), lesson.len()) {
            typed.push(c)
        } else {
            typed
        },
        _ => typed,
    }
}

/// The character that a key yields: the layout's substitute when emulation is on
/// and one exists, else the key's own.
pub open spec fn resolve(a: Action, use_emulation: bool, mapped: Option<char>) -> Action {
    match a {
        Action::Insert(c) => if use_emulation && mapped is Some {
            Action::Insert(mapped->0)
        } else {
            a
        },
        _ => a,
    }
}

/// Whether `a` is an insertion of a letter.
pub open spec fn letter_of(a: Action) -> bool {
    match a {
        Action::Insert(c) => alphabetic(c),
        _ => false,
    }
}

/// The fields that key handling never changes are equal.
pub open spec fn same_record(o: AppState, n: AppState) -> bool {
    &&& n.ngrams@ == o.ngrams@
    &&& n.current_lesson_string@ == o.current_lesson_string@
    &&& n.current_lesson_number == o.current_lesson_number
    &&& n.wpm_history@ == o.wpm_history@
    &&& n.acc_history@ == o.acc_history@
    &&& n.average_wpm == o.average_wpm
    &&& n.average_accuracy == o.average_accuracy
    &&& n.succeeded_lessons == o.succeeded_lessons
    &&& n.failed_lessons == o.failed_lessons
    &&& n.need_wpm == o.need_wpm
    &&& n.need_acc == o.need_acc
    &&& n.use_emulation == o.use_emulation
}

/// Nothing changed.
pub open spec fn unchanged(o: AppState, n: AppState) -> bool {
    &&& same_record(o, n)
    &&& n.current_typed_string@ == o.current_typed_string@
    &&& n.wpm_start_time == o.wpm_start_time
    &&& n.acc_key_hits == o.acc_key_hits
    &&& n.acc_key_misses == o.acc_key_misses
}

/// `n` is `o` after action `a` (`letter`: whether an inserted character is a
/// letter) at clock reading `now`.
pub open spec fn action_step(o: AppState, n: AppState, a: Action, letter: bool, now: u64) -> bool {
    let typed = o.current_typed_string@;
    let lesson = o.current_lesson_string@;
    let ins = inserts(a, letter, typed, lesson);
    &&& same_record(o, n)
    &&& n.current_typed_string@ == typed_after(a, letter, typed, lesson)
    &&& n.wpm_start_time == if ins && typed.len() == 0 {
        now
    } else {
        o.wpm_start_time
    }
    &&& n.acc_key_hits == if ins {
        sat_inc(o.acc_key_hits)
    } else {
        o.acc_key_hits
    }
    &&& n.acc_key_misses == if ins && a->Insert_0 != lesson[typed.len() as int] {
        sat_inc(o.acc_key_misses)
    } else {
        o.acc_key_misses
    }
}

/// `n` is `o` after key event `k`, with `mapped` the layout's substitute for its character.
pub open spec fn key_step(o: AppState, n: AppState, k: KeyInput, mapped: Option<char>, now: u64) -> bool {
    let a = resolve(action_of(k), o.use_emulation, mapped);
    action_step(o, n, a, letter_of(a), now)
}

/// The scores of the typed lesson pass both thresholds.
pub open spec fn passes(w: nat, acc: nat, need_wpm: u32, need_acc: u32) -> bool {
    w >= need_wpm && acc >= need_acc
}

/// The score fields of `n` are those of `o` after scoring its lesson at clock reading `now`.
pub open spec fn scored(o: AppState, n: AppState, now: u64) -> bool {
    let w = wpm_score(
        count_non_space(o.current_typed_string@),
        elapsed_ms(o.wpm_start_time, now),
    );
    let acc = acc_score(o.acc_key_hits as nat, o.acc_key_misses as nat);
    &&& n.wpm_history@ == o.wpm_history@.push(w as u32)
    &&& n.acc_history@ == o.acc_history@.push(acc as u32)
    &&& n.average_wpm == mean(n.wpm_history@)
    &&& n.average_accuracy == mean(n.acc_history@)
    &&& n.acc_key_hits == 0
    &&& n.acc_key_misses == 0
    &&& if passes(w, acc, o.need_wpm, o.need_acc) {
        n.succeeded_lessons == o.succeeded_lessons + 1 && n.failed_lessons == o.failed_lessons
    } else {
        n.succeeded_lessons == o.succeeded_lessons && n.failed_lessons == o.failed_lessons + 1
    }
}

/// The score fields are equal.
pub open spec fn same_scores(o: AppState, n: AppState) -> bool {
    &&& n.wpm_history@ == o.wpm_history@
    &&& n.acc_history@ == o.acc_history@
    &&& n.average_wpm == o.average_wpm
    &&& n.average_accuracy == o.average_accuracy
    &&& n.acc_key_hits == o.acc_key_hits
    &&& n.acc_key_misses == o.acc_key_misses
    &&& n.succeeded_lessons == o.succeeded_lessons
    &&& n.failed_lessons == o.failed_lessons
}

/// The configuration fields are equal.
pub open spec fn same_config(o: AppState, n: AppState) -> bool {
    &&& n.ngrams@ == o.ngrams@
    &&& n.need_wpm == o.need_wpm
    &&& n.need_acc == o.need_acc
    &&& n.use_emulation == o.use_emulation
}

/// One more, unless already at the largest value.
pub open spec fn sat_inc_usize(x: usize) -> usize {
    if x < usize::MAX {
        (x + 1) as usize
    } else {
        x
    }
}

/// `n` is `o` after finishing its lesson at clock reading `now` and starting
/// `next`: a lesson other than the first is scored first.
pub open spec fn completed(o: AppState, n: AppState, next: Seq<char>, now: u64) -> bool {
    &&& if o.current_lesson_number > 0 {
        scored(o, n, now)
    } else {
        same_scores(o, n)
    }
    &&& same_config(o, n)
    &&& n.current_lesson_number == sat_inc_usize(o.current_lesson_number)
    &&& n.current_typed_string@.len() == 0
    &&& n.current_lesson_string@ == next
    &&& n.wpm_start_time == o.wpm_start_time
}

/// `l` is a lesson that the settings can give from `ngrams`.
pub open spec fn is_lesson_of(l: Seq<char>, ngrams: Seq<String>, args: Args) -> bool {
    exists|picks: Seq<usize>|
        #![trigger lesson_text(pool_of(strings_view(ngrams), args.top as nat), picks, args.rep as nat)]
        picks.len() == args.combi && picks_in(
            picks,
            pool_of(strings_view(ngrams), args.top as nat).len(),
        ) && l == lesson_text(pool_of(strings_view(ngrams), args.top as nat), picks, args.rep as nat)
}

/// `n` is `o` after the completion check: a typed text equal to the lesson
/// completes it and a new lesson follows; otherwise nothing changes.
pub open spec fn eval_step(o: AppState, n: AppState, args: Args, now: u64) -> bool {
    if o.current_typed_string@ == o.current_lesson_string@ {
        completed(o, n, n.current_lesson_string@, now) && is_lesson_of(
            n.current_lesson_string@,
            o.ngrams@,
            args,
        )
    } else {
        unchanged(o, n)
    }
}

/// Removes the last word of `t` as `delete_word` says.
pub fn delete_last_word(t: &mut Vec<char>)
    ensures
        final(t)@ == delete_word(old(t)@),
{
    let n = t.len();
    if n == 0 {
        return;
    }
    let mut k: usize = n - 1;
    loop
        invariant
            n == t@.len(),
            n > 0,
            k <= n - 1,
            t@ == old(t)@,
            word_start(t@, k as int) == word_start(t@, n - 1),
        ensures
            k as int == word_start(t@, n - 1),
            t@ == old(t)@,
        decreases k,
    {
        if k == 0 {
            break;
        }
        if t[k - 1] == ' ' {
            break;
        }
        k = k - 1;
    }
    t.truncate(k);
}

/// Whether two texts are equal.
pub fn same_text(a: &Vec<char>, b: &Vec<char>) -> (r: bool)
    ensures
        r == (a@ == b@),
{
    if a.len() != b.len() {
        return false;
    }
    let mut i: usize = 0;
    while i < a.len()
        invariant
            a@.len() == b@.len(),
            i <= a@.len(),
            a@.take(i as int) == b@.take(i as int),
        decreases a.len() - i,
    {
        if a[i] != b[i] {
            assert(a@[i as int] != b@[i as int]);
            return false;
        }
        assert(a@.take(i + 1) =~= a@.take(i as int).push(a@[i as int]));
        assert(b@.take(i + 1) =~= b@.take(i as int).push(b@[i as int]));
        i = i + 1;
    }
    assert(a@ =~= a@.take(i as int));
    assert(b@ =~= b@.take(i as int));
    true
}

/// Backspace on an empty typed text leaves it empty; Tab always leaves it empty.
pub proof fn lemma_backspace_and_tab(o: AppState, n: AppState, a: Action, letter: bool, now: u64)
    requires
        action_step(o, n, a, letter, now),
        a == Action::DeleteChar || a == Action::Clear,
        a == Action::DeleteChar ==> o.current_typed_string@.len() == 0,
    ensures
        n.current_typed_string@.len() == 0,
        unchanged(o, n) || a == Action::Clear,
{
}

/// Once the typed text is as long as the lesson, a character is no longer
/// taken, while Enter still appends a space; a typed text longer than the
/// lesson never equals it.
pub proof fn lemma_length_cap(o: AppState, n: AppState, a: Action, letter: bool, now: u64)
    requires
        action_step(o, n, a, letter, now),
        o.current_typed_string@.len() >= o.current_lesson_string@.len(),
    ensures
        a is Insert ==> unchanged(o, n),
        a == Action::InsertSpace ==> n.current_typed_string@ == o.current_typed_string@.push(' '),
        n.current_typed_string@.len() > n.current_lesson_string@.len()
            ==> n.current_typed_string@ != n.current_lesson_string@,
{
}

/// Finishing the first lesson adds no score; finishing any later one adds
/// exactly one score to each history.
pub proof fn lemma_scores_per_lesson(o: AppState, n: AppState, next: Seq<char>, now: u64)
    requires
        completed(o, n, next, now),
    ensures
        o.current_lesson_number == 0 ==> n.wpm_history@ == o.wpm_history@ && n.acc_history@
            == o.acc_history@,
        o.current_lesson_number > 0 ==> n.wpm_history@.len() == o.wpm_history@.len() + 1
            && n.acc_history@.len() == o.acc_history@.len() + 1,
{
}

impl AppState {
    /// One score per scored lesson in each history, and each average the mean of its history.
    pub open spec fn wf(&self) -> bool {
        &&& self.wpm_history@.len() == self.acc_history@.len()
        &&& self.wpm_history@.len() == self.succeeded_lessons + self.failed_lessons
        &&& self.average_wpm == mean(self.wpm_history@)
        &&& self.average_accuracy == mean(self.acc_history@)
    }

    /// A fresh session: no lesson yet, all counters and histories empty.
    pub fn new(ngrams: Vec<String>, need_wpm: u32, need_acc: u32, use_emulation: bool) -> (r: Self)
        ensures
            r.wf(),
            r.ngrams@ == ngrams@,
            r.current_lesson_string@.len() == 0,
            r.current_typed_string@.len() == 0,
            r.current_lesson_number == 0,
            r.wpm_start_time == 0,
            r.acc_key_hits == 0,
            r.acc_key_misses == 0,
            r.wpm_history@.len() == 0,
            r.acc_history@.len() == 0,
            r.succeeded_lessons == 0,
            r.failed_lessons == 0,
            r.need_wpm == need_wpm,
            r.need_acc == need_acc,
            r.use_emulation == use_emulation,
    {
        AppState {
            ngrams,
            current_lesson_string: Vec::new(),
            current_typed_string: Vec::new(),
            current_lesson_number: 0,
            wpm_start_time: 0,
            acc_key_hits: 0,
            acc_key_misses: 0,
            wpm_history: Vec::new(),
            acc_history: Vec::new(),
            average_wpm: 0,
            average_accuracy: 0,
            succeeded_lessons: 0,
            failed_lessons: 0,
            need_wpm,
            need_acc,
            use_emulation,
        }
    }

    /// Applies action `a`; `letter` says whether an inserted character is a letter.
    pub fn apply_action(&mut self, a: Action, letter: bool, now: u64)
        ensures
            action_step(*old(self), *final(self), a, letter, now),
    {
        match a {
            Action::DeleteWord => delete_last_word(&mut self.current_typed_string),
            Action::Clear => {
                self.current_typed_string.truncate(0);
                assert(self.current_typed_string@ =~= Seq::empty());
            },
            Action::DeleteChar => {
                let ghost before = self.current_typed_string@;
                self.current_typed_string.pop();
                assert(before.len() > 0 ==> self.current_typed_string@ =~= before.drop_last());
            },
            Action::InsertSpace => self.current_typed_string.push(' '),
            Action::Insert(c) => {
                let len = self.current_typed_string.len();
                if (letter || c == ' ') && len < self.current_lesson_string.len() {
                    if len == 0 {
                        self.wpm_start_time = now;
                    }
                    self.current_typed_string.push(c);
                    if self.acc_key_hits < u64::MAX {
                        self.acc_key_hits = self.acc_key_hits + 1;
                    }
                    if self.current_lesson_string[len] != c && self.acc_key_misses < u64::MAX {
                        self.acc_key_misses = self.acc_key_misses + 1;
                    }
                }
            },
            _ => {},
        }
    }

    /// Handles one key event; `mapped` is the layout's substitute for its
    /// character, used when emulation is on. Returns whether to quit.
    pub fn handle_key(&mut self, key: &KeyInput, mapped: Option<char>, now: u64) -> (quit: bool)
        ensures
            quit == (action_of(*key) == Action::Quit),
            key_step(*old(self), *final(self), *key, mapped, now),
    {
        let a0 = classify(key);
        let a = match a0 {
            Action::Insert(c) => {
                if self.use_emulation {
                    match mapped {
                        Some(m) => Action::Insert(m),
                        None => a0,
                    }
                } else {
                    a0
                }
            },
            _ => a0,
        };
        let letter = match a {
            Action::Insert(c) => is_alphabetic(c),
            _ => false,
        };
        self.apply_action(a, letter, now);
        match a0 {
            Action::Quit => true,
            _ => false,
        }
    }

    /// Scores the typed lesson: appends its words per minute and accuracy to the
    /// histories, updates the averages, resets the keystroke counters, and counts
    /// the lesson as passed when both scores reach their thresholds.
    pub fn score_lesson(&mut self, now: u64)
        requires
            old(self).wf(),
        ensures
            final(self).wf(),
            scored(*old(self), *final(self), now),
            same_config(*old(self), *final(self)),
            final(self).current_lesson_string@ == old(self).current_lesson_string@,
            final(self).current_typed_string@ == old(self).current_typed_string@,
            final(self).current_lesson_number == old(self).current_lesson_number,
            final(self).wpm_start_time == old(self).wpm_start_time,
    {
        let ms: u64 = if now >= self.wpm_start_time {
            now - self.wpm_start_time
        } else {
            0
        };
        let w = wpm(non_space_count(&self.current_typed_string), ms);
        let acc = accuracy(self.acc_key_hits, self.acc_key_misses);
        self.acc_key_hits = 0;
        self.acc_key_misses = 0;
        self.wpm_history.push(w);
        self.acc_history.push(acc);
        // The history's length bounds the lesson counters, which sum to one less.
        let _n: usize = self.wpm_history.len();
        self.average_wpm = mean_of(&self.wpm_history);
        self.average_accuracy = mean_of(&self.acc_history);
        if w >= self.need_wpm && acc >= self.need_acc {
            self.succeeded_lessons = self.succeeded_lessons + 1;
        } else {
            self.failed_lessons = self.failed_lessons + 1;
        }
    }

    /// Finishes the current lesson at clock reading `now` and starts `next`.
    pub fn complete_lesson(&mut self, next: Vec<char>, now: u64)
        requires
            old(self).wf(),
        ensures
            final(self).wf(),
            completed(*old(self), *final(self), next@, now),
    {
        if self.current_lesson_number > 0 {
            self.score_lesson(now);
        }
        if self.current_lesson_number < usize::MAX {
            self.current_lesson_number = self.current_lesson_number + 1;
        }
        self.current_typed_string.clear();
        self.current_lesson_string = next;
    }

    /// The completion check: when the typed text equals the lesson, finishes
    /// it and starts a newly generated one.
    pub fn evaluate(&mut self, args: &Args, now: u64)
        requires
            old(self).wf(),
            can_pick(old(self).ngrams@.len(), args.top as nat, args.combi as nat),
        ensures
            final(self).wf(),
            eval_step(*old(self), *final(self), *args, now),
    {
        if same_text(&self.current_typed_string, &self.current_lesson_string) {
            let next = generate_lesson_string(args.top, args.combi, args.rep, &self.ngrams);
            self.complete_lesson(next, now);
        }
    }
}

/// One frame of the game: handles `key`, if any and a lesson is active, and
/// then the completion check. Returns whether the session should end, in which
/// case nothing has changed.
pub fn run_game(
    args: &Args,
    state: &mut AppState,
    key: Option<KeyInput>,
    mapped: Option<char>,
    now: u64,
) -> (quit: bool)
    requires
        old(state).wf(),
        can_pick(old(state).ngrams@.len(), args.top as nat, args.combi as nat),
    ensures
        final(state).wf(),
        quit == (old(state).current_lesson_string@.len() > 0 && key is Some && action_of(key->0)
            == Action::Quit),
        quit ==> unchanged(*old(state), *final(state)),
        !quit ==> exists|mid: AppState|
            #[trigger] eval_step(mid, *final(state), *args, now) && if old(
                state,
            ).current_lesson_string@.len() > 0 && key is Some {
                key_step(*old(state), mid, key->0, mapped, now)
            } else {
                unchanged(*old(state), mid)
            },
{
    if state.current_lesson_string.len() > 0 {
        match key {
            Some(k) => {
                if state.handle_key(&k, mapped, now) {
                    return true;
                }
            },
            None => {},
        }
    }
    let ghost mid = *state;
    state.evaluate(args, now);
    assert(eval_step(mid, *state, *args, now));
    false
}

} // verus!
