use vstd::prelude::*;

verus! {

/// Raw counters of one practice attempt.
#[derive(Clone, Copy, Debug, PartialEq, Eq, Structural)]
pub struct TypingStats {
    /// Input positions that hold the prompt's character at the same position.
    pub characters_typed: usize,
    /// Typed characters that are not correct.
    pub errors: usize,
    /// Characters (not bytes) in the current input.
    pub total_typed: usize,
    /// Whole seconds since the attempt started.
    pub elapsed_seconds: u64,
}

impl TypingStats {
    /// The counters agree: every typed character is either correct or an error.
    pub open spec fn is_consistent(self) -> bool {
        self.errors + self.characters_typed == self.total_typed
    }

    /// Words per minute in hundredths, exactly: a word is five correct
    /// characters, so `(chars / 5) / (secs / 60) * 100 = chars * 1200 / secs`.
    pub open spec fn wpm_hundredths(self) -> int {
        if self.elapsed_seconds > 0 {
            (self.characters_typed * 1200) / (self.elapsed_seconds as int)
        } else {
            0
        }
    }

    /// The speed as reported: `wpm_hundredths`, capped at `u64::MAX`.
    pub open spec fn wpm_capped(self) -> int {
        if self.wpm_hundredths() <= u64::MAX {
            self.wpm_hundredths()
        } else {
            u64::MAX as int
        }
    }

    /// Share of typed characters that are correct, in hundredths of a percent;
    /// a full score when nothing has been typed.
    pub open spec fn accuracy_hundredths(self) -> int {
        if self.total_typed > 0 {
            ((self.total_typed - self.errors) * 10000) / (self.total_typed as int)
        } else {
            10000
        }
    }

    /// All counters zero.
    pub open spec fn is_zero(self) -> bool {
        &&& self.characters_typed == 0
        &&& self.errors == 0
        &&& self.total_typed == 0
        &&& self.elapsed_seconds == 0
    }

    /// The all-zero counters of an attempt that has not begun.
    pub fn zero() -> (r: TypingStats)
        ensures
            r.is_zero(),
    {
        TypingStats { characters_typed: 0, errors: 0, total_typed: 0, elapsed_seconds: 0 }
    }

    /// Words per minute in hundredths (rounded down); zero while no time has
    /// elapsed, and capped at `u64::MAX`.
    pub fn wpm(&self) -> (r: u64)
        ensures
            r as int == self.wpm_capped(),
            self.elapsed_seconds == 0 ==> r == 0,
    {
        if self.elapsed_seconds > 0 {
            let v: u128 = (self.characters_typed as u128) * 1200 / (self.elapsed_seconds as u128);
            if v > u64::MAX as u128 {
                u64::MAX
            } else {
                v as u64
            }
        } else {
            0
        }
    }

    /// Accuracy in hundredths of a percent (rounded down); `10000` (100%)
    /// while nothing has been typed.
    pub fn accuracy(&self) -> (r: u64)
        requires
            self.errors <= self.total_typed,
        ensures
            r as int == self.accuracy_hundredths(),
            r <= 10000,
            self.total_typed == 0 ==> r == 10000,
    {
        if self.total_typed > 0 {
            let t = self.total_typed as u128;
            let good = (self.total_typed - self.errors) as u128;
            proof {
                assert(good * 10000 <= t * 10000) by (nonlinear_arith)
                    requires good <= t;
                vstd::arithmetic::div_mod::lemma_div_is_ordered(
                    (good * 10000) as int,
                    (t * 10000) as int,
                    t as int,
                );
                vstd::arithmetic::div_mod::lemma_div_multiples_vanish(10000, t as int);
                assert(t * 10000 == 10000 * t) by (nonlinear_arith);
            }
            (good * 10000 / t) as u64
        } else {
            10000
        }
    }
}

impl Default for TypingStats {
    fn default() -> (r: TypingStats)
        ensures
            r.is_zero(),
    {
        TypingStats::zero()
    }
}

/// Number of prompts in the fixed exercise list.
pub const EXERCISE_COUNT: usize = 8;

/// The prompt at position `k` of the exercise list, for `0 <= k < EXERCISE_COUNT`.
pub open spec fn exercise_at(k: int) -> Seq<char> {
    if k == 0 {
        "Array30是一個高效率的漢字輸入法"@
    } else if k == 1 {
        "熟能生巧，經過練習可以提高打字速度"@
    } else if k == 2 {
        "這個打字教練使用Rust和Dioxus開發"@
    } else if k == 3 {
        "Array30採用最優化的按鍵配置設計"@
    } else if k == 4 {
        "持續練習將幫助您改善打字的技能"@
    } else if k == 5 {
        "中文輸入法有很多不同的方式和系統"@
    } else if k == 6 {
        "提高打字速度需要長期的努力和堅持"@
    } else {
        "Array30提供快速和準確的輸入體驗"@
    }
}

/// The prompt for exercise number `index`: the list is cycled through.
pub open spec fn exercise_text(index: int) -> Seq<char> {
    exercise_at(index % (EXERCISE_COUNT as int))
}

/// Number of positions `i < n` at which `input` holds the character that
/// `target` holds at the same position.
pub open spec fn matches_before(target: Seq<char>, input: Seq<char>, n: int) -> nat
    decreases n,
{
    if n <= 0 {
        0
    } else {
        matches_before(target, input, n - 1) + if n - 1 < target.len() && input[n - 1] == target[
            n - 1] {
            1nat
        } else {
            0nat
        }
    }
}

/// Characters of `input` that match `target` position by position; characters
/// beyond the end of `target` never match.
pub open spec fn correct_count(target: Seq<char>, input: Seq<char>) -> nat {
    matches_before(target, input, input.len() as int)
}

/// The characters of `s`, in order.
fn chars_of(s: &str) -> (r: Vec<char>)
    ensures
        r@ == s@,
{
    let mut r: Vec<char> = Vec::new();
    for c in it: s.chars()
        invariant
            r@ == it.seq().take(it.index() as int),
    {
        r.push(c);
    }
    r
}

/// One attempt at typing the current prompt.
#[derive(Clone, Debug)]
pub struct PracticeSession {
    /// The prompt being typed.
    pub target_text: String,
    /// The whole input as last reported.
    pub user_input: String,
    /// Counters recomputed on every input update.
    pub stats: TypingStats,
    /// Whether typing has begun on this prompt.
    pub started: bool,
    /// Number of the current exercise; it only grows.
    pub exercise_index: usize,
}

impl PracticeSession {
    /// A fresh session on the first exercise.
    pub fn new() -> (r: PracticeSession)
        ensures
            r.exercise_index == 0,
            r.target_text@ == exercise_text(0),
            r.user_input@ == Seq::<char>::empty(),
            r.stats.is_zero(),
            !r.started,
    {
        PracticeSession {
            target_text: Self::get_exercise(0),
            user_input: String::new(),
            stats: TypingStats::zero(),
            started: false,
            exercise_index: 0,
        }
    }

    /// Marks typing as begun; nothing else changes.
    pub fn start(&mut self)
        ensures
            final(self).started,
            final(self).target_text == old(self).target_text,
            final(self).user_input == old(self).user_input,
            final(self).stats == old(self).stats,
            final(self).exercise_index == old(self).exercise_index,
    {
        self.started = true;
    }

    /// Takes the whole current input and recomputes the counters against the
    /// prompt, comparing characters position by position.
    pub fn update_input(&mut self, input: &str, elapsed_ms: u64)
        ensures
            final(self).user_input@ == input@,
            final(self).stats.total_typed == input@.len(),
            final(self).stats.characters_typed == correct_count(old(self).target_text@, input@),
            final(self).stats.errors == input@.len() - correct_count(
                old(self).target_text@,
                input@,
            ),
            final(self).stats.is_consistent(),
            final(self).stats.elapsed_seconds == elapsed_ms / 1000,
            final(self).target_text == old(self).target_text,
            final(self).started == old(self).started,
            final(self).exercise_index == old(self).exercise_index,
    {
        self.user_input = input.to_owned();
        let target_chars = chars_of(self.target_text.as_str());
        let input_chars = chars_of(input);

        let mut correct: usize = 0;
        let mut i: usize = 0;
        while i < input_chars.len()
            invariant
                i <= input_chars.len(),
                target_chars@ == self.target_text@,
                input_chars@ == input@,
                correct == matches_before(target_chars@, input_chars@, i as int),
                correct <= i,
            decreases input_chars.len() - i,
        {
            if i < target_chars.len() && input_chars[i] == target_chars[i] {
                correct = correct + 1;
            }
            i = i + 1;
        }

        let total = input_chars.len();
        self.stats.total_typed = total;
        self.stats.characters_typed = correct;
        self.stats.errors = total - correct;
        self.stats.elapsed_seconds = elapsed_ms / 1000;
    }

    /// Moves on to the next exercise: the prompt follows the new index, and the
    /// input, the counters and the started flag are cleared.
    pub fn next_exercise(&mut self)
        requires
            old(self).exercise_index < usize::MAX,
        ensures
            final(self).exercise_index == old(self).exercise_index + 1,
            final(self).target_text@ == exercise_text(final(self).exercise_index as int),
            final(self).user_input@ == Seq::<char>::empty(),
            final(self).stats.is_zero(),
            !final(self).started,
    {
        self.exercise_index = self.exercise_index + 1;
        self.target_text = Self::get_exercise(self.exercise_index);
        self.user_input = String::new();
        self.stats = TypingStats::zero();
        self.started = false;
    }

    /// Whether the attempt is finished: the prompt is not empty and the input
    /// is exactly the prompt, character for character.
    pub fn is_complete(&self) -> (r: bool)
        ensures
            r == (self.target_text@.len() > 0 && self.user_input@ == self.target_text@),
    {
        let target_chars = chars_of(self.target_text.as_str());
        let input_chars = chars_of(self.user_input.as_str());
        if target_chars.len() == 0 || input_chars.len() != target_chars.len() {
            return false;
        }
        let mut i: usize = 0;
        while i < input_chars.len()
            invariant
                i <= input_chars.len(),
                input_chars.len() == target_chars.len(),
                target_chars@ == self.target_text@,
                input_chars@ == self.user_input@,
                input_chars@.take(i as int) == target_chars@.take(i as int),
            decreases input_chars.len() - i,
        {
            if input_chars[i] != target_chars[i] {
                assert(input_chars@[i as int] != target_chars@[i as int]);
                return false;
            }
            assert(input_chars@.take(i + 1) =~= input_chars@.take(i as int).push(input_chars@[i as int]));
            assert(target_chars@.take(i + 1) =~= target_chars@.take(i as int).push(target_chars@[i as int]));
            i = i + 1;
        }
        assert(input_chars@ =~= input_chars@.take(i as int));
        assert(target_chars@ =~= target_chars@.take(i as int));
        true
    }

    /// The prompt of exercise number `index`.
    fn get_exercise(index: usize) -> (r: String)
        ensures
            r@ == exercise_text(index as int),
    {
        let k = index % EXERCISE_COUNT;
        let text = if k == 0 {
            "Array30是一個高效率的漢字輸入法"
        } else if k == 1 {
            "熟能生巧，經過練習可以提高打字速度"
        } else if k == 2 {
            "這個打字教練使用Rust和Dioxus開發"
        } else if k == 3 {
            "Array30採用最優化的按鍵配置設計"
        } else if k == 4 {
            "持續練習將幫助您改善打字的技能"
        } else if k == 5 {
            "中文輸入法有很多不同的方式和系統"
        } else if k == 6 {
            "提高打字速度需要長期的努力和堅持"
        } else {
            "Array30提供快速和準確的輸入體驗"
        };
        text.to_owned()
    }
}

impl Default for PracticeSession {
    fn default() -> (r: PracticeSession)
        ensures
            r.exercise_index == 0,
            r.target_text@ == exercise_text(0),
            r.user_input@ == Seq::<char>::empty(),
            r.stats.is_zero(),
            !r.started,
    {
        PracticeSession::new()
    }
}

/// Exercise numbers of consecutive sessions grow by one: `runs[k]` is
/// `runs[0]` after `k` calls of `next_exercise`.
proof fn lemma_index_after_steps(runs: Seq<PracticeSession>, k: int)
    requires
        0 <= k < runs.len(),
        forall|j: int|
            0 <= j < k ==> #[trigger] runs[j + 1].exercise_index == runs[j].exercise_index + 1,
    ensures
        runs[k].exercise_index == runs[0].exercise_index + k,
    decreases k,
{
    if k > 0 {
        lemma_index_after_steps(runs, k - 1);
        assert(runs[(k - 1) + 1].exercise_index == runs[k - 1].exercise_index + 1);
    }
}

/// Moving on through as many exercises as the list holds brings a session
/// back to the prompt it started from. `runs[k + 1]` is the session after
/// one more call of `next_exercise` than `runs[k]`, as that call's contract
/// states it; `runs[0]` shows the prompt of its own exercise number, as every
/// session made by `new` or `next_exercise` does.
pub proof fn lemma_exercises_wrap(runs: Seq<PracticeSession>)
    requires
        runs.len() == EXERCISE_COUNT + 1,
        runs[0].target_text@ == exercise_text(runs[0].exercise_index as int),
        forall|k: int|
            0 <= k < EXERCISE_COUNT ==> #[trigger] runs[k + 1].exercise_index
                == runs[k].exercise_index + 1,
        forall|k: int|
            0 <= k < EXERCISE_COUNT ==> #[trigger] runs[k + 1].target_text@ == exercise_text(
                runs[k + 1].exercise_index as int,
            ),
    ensures
        runs[EXERCISE_COUNT as int].target_text@ == runs[0].target_text@,
{
    let n = EXERCISE_COUNT as int;
    lemma_index_after_steps(runs, n);
    assert(runs[(n - 1) + 1].target_text@ == exercise_text(runs[(n - 1) + 1].exercise_index as int));
    vstd::arithmetic::div_mod::lemma_mod_add_multiples_vanish(runs[0].exercise_index as int, n);
}

} // verus!
