use vstd::prelude::*;

use crate::clock::now_timestamp;

verus! {

/// The characters that count as whitespace in a task name: the Unicode
/// white-space characters, the set Rust's `char::is_whitespace` recognizes.
pub open spec fn is_space(c: char) -> bool {
    ||| c == '\t'
    ||| c == '\n'
    ||| c == '\u{000B}'
    ||| c == '\u{000C}'
    ||| c == '\r'
    ||| c == ' '
    ||| c == '\u{0085}'
    ||| c == '\u{00A0}'
    ||| c == '\u{1680}'
    ||| c == '\u{2000}'
    ||| c == '\u{2001}'
    ||| c == '\u{2002}'
    ||| c == '\u{2003}'
    ||| c == '\u{2004}'
    ||| c == '\u{2005}'
    ||| c == '\u{2006}'
    ||| c == '\u{2007}'
    ||| c == '\u{2008}'
    ||| c == '\u{2009}'
    ||| c == '\u{200A}'
    ||| c == '\u{2028}'
    ||| c == '\u{2029}'
    ||| c == '\u{202F}'
    ||| c == '\u{205F}'
    ||| c == '\u{3000}'
}

/// Whether `c` is one of the white-space characters of `is_space`.
fn char_is_space(c: char) -> (b: bool)
    ensures
        b == is_space(c),
{
    c == '\t' || c == '\n' || c == '\u{000B}' || c == '\u{000C}' || c == '\r' || c == ' '
        || c == '\u{0085}' || c == '\u{00A0}' || c == '\u{1680}' || c == '\u{2000}'
        || c == '\u{2001}' || c == '\u{2002}' || c == '\u{2003}' || c == '\u{2004}'
        || c == '\u{2005}' || c == '\u{2006}' || c == '\u{2007}' || c == '\u{2008}'
        || c == '\u{2009}' || c == '\u{200A}' || c == '\u{2028}' || c == '\u{2029}'
        || c == '\u{202F}' || c == '\u{205F}' || c == '\u{3000}'
}

/// A name is blank when every character is whitespace; the empty name is blank.
pub open spec fn is_blank(s: Seq<char>) -> bool {
    forall|i: int| 0 <= i < s.len() ==> is_space(s[i])
}

/// Whether `s` consists of whitespace only (or is empty).
pub fn str_is_blank(s: &str) -> (b: bool)
    ensures
        b == is_blank(s@),
{
    let n = s.unicode_len();
    let mut k: usize = 0;
    while k < n
        invariant
            n == s@.len(),
            0 <= k <= n,
            forall|j: int| 0 <= j < k ==> is_space(s@[j]),
        decreases n - k,
    {
        let c = s.get_char(k);
        if !char_is_space(c) {
            assert(!is_space(s@[k as int]));
            return false;
        }
        k += 1;
    }
    true
}

/// One unit of work. Durations are in milliseconds, timestamps in whole
/// seconds since the Unix epoch.
pub struct Task {
    pub name: String,
    pub completed: bool,
    pub pomodoros: u32,
    pub time_spent: u64,
    pub creation_date: i64,
    pub completion_date: Option<i64>,
}

impl Task {
    /// A task is well formed when its name is not blank and it carries a
    /// completion timestamp exactly when it is completed.
    pub open spec fn wf(self) -> bool {
        &&& !is_blank(self.name@)
        &&& (self.completion_date is Some <==> self.completed)
    }

    /// Creates a fresh, uncompleted task stamped with the current time.
    pub fn new(name: String) -> (t: Task)
        requires
            !is_blank(name@),
        ensures
            t.wf(),
            t.name == name,
            !t.completed,
            t.pomodoros == 0,
            t.time_spent == 0,
            t.completion_date is None,
    {
        Task {
            name,
            completed: false,
            pomodoros: 0,
            time_spent: 0,
            creation_date: now_timestamp(),
            completion_date: None,
        }
    }
}

impl Clone for Task {
    fn clone(&self) -> (t: Task)
        ensures
            t == *self,
    {
        Task {
            name: self.name.clone(),
            completed: self.completed,
            pomodoros: self.pomodoros,
            time_spent: self.time_spent,
            creation_date: self.creation_date,
            completion_date: self.completion_date,
        }
    }
}

/// The indices of the uncompleted tasks among the first `n`, in list order.
pub open spec fn uncompleted_upto(tasks: Seq<Task>, n: int) -> Seq<int>
    decreases n,
{
    if n <= 0 {
        Seq::empty()
    } else if tasks[n - 1].completed {
        uncompleted_upto(tasks, n - 1)
    } else {
        uncompleted_upto(tasks, n - 1).push(n - 1)
    }
}

/// The indices of all uncompleted tasks, in list order.
pub open spec fn uncompleted_idxs(tasks: Seq<Task>) -> Seq<int> {
    uncompleted_upto(tasks, tasks.len() as int)
}

/// The indices of the completed tasks among the first `n`, in list order.
pub open spec fn completed_upto(tasks: Seq<Task>, n: int) -> Seq<int>
    decreases n,
{
    if n <= 0 {
        Seq::empty()
    } else if tasks[n - 1].completed {
        completed_upto(tasks, n - 1).push(n - 1)
    } else {
        completed_upto(tasks, n - 1)
    }
}

/// The indices of all completed tasks, in list order.
pub open spec fn completed_idxs(tasks: Seq<Task>) -> Seq<int> {
    completed_upto(tasks, tasks.len() as int)
}

/// How many tasks are completed.
pub open spec fn num_completed(tasks: Seq<Task>) -> int {
    completed_idxs(tasks).len() as int
}

/// Every entry of `uncompleted_upto(tasks, n)` is an in-range index of an
/// uncompleted task, the entries are strictly increasing, and every
/// uncompleted index below `n` occurs.
pub proof fn lemma_uncompleted_upto(tasks: Seq<Task>, n: int)
    requires
        0 <= n <= tasks.len(),
    ensures
        forall|j: int|
            0 <= j < uncompleted_upto(tasks, n).len() ==> 0 <= #[trigger] uncompleted_upto(
                tasks,
                n,
            )[j] < n && !tasks[uncompleted_upto(tasks, n)[j]].completed,
        forall|j1: int, j2: int|
            0 <= j1 < j2 < uncompleted_upto(tasks, n).len()
                ==> #[trigger] uncompleted_upto(tasks, n)[j1]
                    < #[trigger] uncompleted_upto(tasks, n)[j2],
        forall|i: int| 0 <= i < n && !tasks[i].completed ==> uncompleted_upto(tasks, n).contains(i),
    decreases n,
{
    if n > 0 {
        lemma_uncompleted_upto(tasks, n - 1);
        let u = uncompleted_upto(tasks, n);
        let up = uncompleted_upto(tasks, n - 1);
        if !tasks[n - 1].completed {
            assert forall|i: int| 0 <= i < n && !tasks[i].completed implies u.contains(i) by {
                if i == n - 1 {
                    assert(u[u.len() - 1] == i);
                } else {
                    assert(up.contains(i));
                    let j = choose|j: int| 0 <= j < up.len() && up[j] == i;
                    assert(u[j] == i);
                }
            }
        } else {
            assert forall|i: int| 0 <= i < n && !tasks[i].completed implies u.contains(i) by {
                assert(up.contains(i));
            }
        }
    }
}

/// Every entry of `completed_upto(tasks, n)` is an in-range index of a
/// completed task, the entries are strictly increasing, and every completed
/// index below `n` occurs.
pub proof fn lemma_completed_upto(tasks: Seq<Task>, n: int)
    requires
        0 <= n <= tasks.len(),
    ensures
        forall|j: int|
            0 <= j < completed_upto(tasks, n).len() ==> 0 <= #[trigger] completed_upto(
                tasks,
                n,
            )[j] < n && tasks[completed_upto(tasks, n)[j]].completed,
        forall|j1: int, j2: int|
            0 <= j1 < j2 < completed_upto(tasks, n).len()
                ==> #[trigger] completed_upto(tasks, n)[j1]
                    < #[trigger] completed_upto(tasks, n)[j2],
        forall|i: int| 0 <= i < n && tasks[i].completed ==> completed_upto(tasks, n).contains(i),
    decreases n,
{
    if n > 0 {
        lemma_completed_upto(tasks, n - 1);
        let c = completed_upto(tasks, n);
        let cp = completed_upto(tasks, n - 1);
        if tasks[n - 1].completed {
            assert forall|i: int| 0 <= i < n && tasks[i].completed implies c.contains(i) by {
                if i == n - 1 {
                    assert(c[c.len() - 1] == i);
                } else {
                    assert(cp.contains(i));
                    let j = choose|j: int| 0 <= j < cp.len() && cp[j] == i;
                    assert(c[j] == i);
                }
            }
        } else {
            assert forall|i: int| 0 <= i < n && tasks[i].completed implies c.contains(i) by {
                assert(cp.contains(i));
            }
        }
    }
}

/// On a range where the completion flags of two task lists agree, their
/// completed-index sequences grow by the same amount.
pub proof fn lemma_completed_count_agree(s1: Seq<Task>, s2: Seq<Task>, m: int, n: int)
    requires
        0 <= m <= n <= s1.len(),
        n <= s2.len(),
        forall|i: int| m <= i < n ==> s1[i].completed == s2[i].completed,
    ensures
        completed_upto(s1, n).len() - completed_upto(s1, m).len() == completed_upto(s2, n).len()
            - completed_upto(s2, m).len(),
    decreases n - m,
{
    if m < n {
        lemma_completed_count_agree(s1, s2, m, n - 1);
    }
}

/// The position of the first occurrence of `x` in `s`, or `s.len()` when `x`
/// does not occur.
pub open spec fn first_pos(s: Seq<int>, x: int) -> int
    decreases s.len(),
{
    if s.len() == 0 {
        0
    } else if s[0] == x {
        0
    } else {
        1 + first_pos(s.subrange(1, s.len() as int), x)
    }
}

/// `first_pos` is in `[0, s.len()]`; when it is inside the sequence it marks
/// the first occurrence of `x`, and when it equals the length `x` is absent.
pub proof fn lemma_first_pos(s: Seq<int>, x: int)
    ensures
        0 <= first_pos(s, x) <= s.len(),
        first_pos(s, x) < s.len() ==> s[first_pos(s, x)] == x,
        forall|j: int| 0 <= j < first_pos(s, x) ==> s[j] != x,
    decreases s.len(),
{
    if s.len() > 0 && s[0] != x {
        let tail = s.subrange(1, s.len() as int);
        lemma_first_pos(tail, x);
        assert forall|j: int| 0 <= j < first_pos(s, x) implies s[j] != x by {
            if j > 0 {
                assert(tail[j - 1] == s[j]);
            }
        }
    }
}

/// Replacing a task by one with the same completion flag keeps the number of
/// completed tasks.
pub proof fn lemma_num_completed_same_flag(s: Seq<Task>, i: int, t: Task)
    requires
        0 <= i < s.len(),
        t.completed == s[i].completed,
    ensures
        num_completed(s.update(i, t)) == num_completed(s),
{
    lemma_completed_count_agree(s, s.update(i, t), 0, s.len() as int);
}

/// Completing an uncompleted task raises the number of completed tasks by one.
pub proof fn lemma_num_completed_set_flag(s: Seq<Task>, i: int, t: Task)
    requires
        0 <= i < s.len(),
        !s[i].completed,
        t.completed,
    ensures
        num_completed(s.update(i, t)) == num_completed(s) + 1,
{
    let s2 = s.update(i, t);
    lemma_completed_count_agree(s, s2, 0, i);
    assert(completed_upto(s, i + 1).len() == completed_upto(s, i).len());
    assert(completed_upto(s2, i + 1).len() == completed_upto(s2, i).len() + 1);
    lemma_completed_count_agree(s, s2, i + 1, s.len() as int);
}

/// Swapping two adjacent tasks keeps the number of completed tasks.
pub proof fn lemma_num_completed_swap_adjacent(s: Seq<Task>, i: int)
    requires
        1 <= i < s.len(),
    ensures
        num_completed(s.update(i, s[i - 1]).update(i - 1, s[i])) == num_completed(s),
{
    let s2 = s.update(i, s[i - 1]).update(i - 1, s[i]);
    lemma_completed_count_agree(s, s2, 0, i - 1);
    assert(completed_upto(s, i + 1).len() - completed_upto(s, i - 1).len() == completed_upto(
        s2,
        i + 1,
    ).len() - completed_upto(s2, i - 1).len()) by {
        assert(completed_upto(s, i).len() - completed_upto(s, i - 1).len() == (
        if s[i - 1].completed {
            1int
        } else {
            0int
        }));
        assert(completed_upto(s, i + 1).len() - completed_upto(s, i).len() == (
        if s[i].completed {
            1int
        } else {
            0int
        }));
        assert(completed_upto(s2, i).len() - completed_upto(s2, i - 1).len() == (
        if s2[i - 1].completed {
            1int
        } else {
            0int
        }));
        assert(completed_upto(s2, i + 1).len() - completed_upto(s2, i).len() == (
        if s2[i].completed {
            1int
        } else {
            0int
        }));
    }
    lemma_completed_count_agree(s, s2, i + 1, s.len() as int);
}

} // verus!
