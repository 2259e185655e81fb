use vstd::prelude::*;

verus! {

/// Fewest threads handed to media processing.
pub const MIN_THREAD_COUNT: u32 = 1;

/// Most threads handed to media processing.
pub const MAX_THREAD_COUNT: u32 = 64;

/// `n` clamped into `[lo, hi]`.
pub open spec fn clamp(n: int, lo: int, hi: int) -> int {
    if n < lo {
        lo
    } else if n > hi {
        hi
    } else {
        n
    }
}

/// Ideal thread count for media processing, given the number of processors
/// the machine reports: that number clamped into
/// `[MIN_THREAD_COUNT, MAX_THREAD_COUNT]`.
pub fn ideal_thread_count(num_processors: u32) -> (count: u32)
    ensures
        count == clamp(num_processors as int, MIN_THREAD_COUNT as int, MAX_THREAD_COUNT as int),
        MIN_THREAD_COUNT <= count <= MAX_THREAD_COUNT,
{
    if num_processors < MIN_THREAD_COUNT {
        MIN_THREAD_COUNT
    } else if num_processors > MAX_THREAD_COUNT {
        MAX_THREAD_COUNT
    } else {
        num_processors
    }
}

/// More processors never give fewer threads, and a count already in range
/// is kept as it is.
pub proof fn lemma_thread_count_monotone(n: u32, m: u32)
    ensures
        n <= m ==> clamp(n as int, MIN_THREAD_COUNT as int, MAX_THREAD_COUNT as int) <= clamp(
            m as int,
            MIN_THREAD_COUNT as int,
            MAX_THREAD_COUNT as int,
        ),
        MIN_THREAD_COUNT <= n <= MAX_THREAD_COUNT ==> clamp(
            n as int,
            MIN_THREAD_COUNT as int,
            MAX_THREAD_COUNT as int,
        ) == n,
{
}

/// Whether two strings hold the same characters.
pub(crate) fn same_text(a: &str, b: &str) -> (same: bool)
    ensures
        same == (a@ == b@),
{
    let n = a.unicode_len();
    if n != b.unicode_len() {
        return false;
    }
    let mut i: usize = 0;
    while i < n
        invariant
            n == a@.len(),
            n == b@.len(),
            i <= n,
            forall|j: int| 0 <= j < i ==> a@[j] == b@[j],
        decreases n - i,
    {
        if a.get_char(i) != b.get_char(i) {
            return false;
        }
        i = i + 1;
    }
    assert(a@ =~= b@);
    true
}

/// Value of the variable that switches experimental features on.
pub open spec fn experimental_switch() -> Seq<char> {
    seq!['1']
}

/// Whether experimental features are on, given the value of the
/// `KOOHA_EXPERIMENTAL` environment variable (`None` when it is unset or not
/// valid unicode): they are on exactly when the value is `"1"`.
pub fn is_experimental_mode(value: Option<&str>) -> (on: bool)
    ensures
        on == (value matches Some(v) && v@ == experimental_switch()),
{
    match value {
        Some(v) => {
            proof {
                reveal_strlit("1");
                assert("1"@ =~= experimental_switch());
            }
            same_text(v, "1")
        },
        None => false,
    }
}

/// Whether the application may quit, given whether its main window is safe
/// to close (`None` when there is no main window): it may when there is no
/// window, or when the window is safe to close.
pub fn may_quit(window_safe_to_close: Option<bool>) -> (quit: bool)
    ensures
        quit == (window_safe_to_close matches None || window_safe_to_close == Some(true)),
{
    match window_safe_to_close {
        None => true,
        Some(safe) => safe,
    }
}

/// The URI under which the desktop opens the file at `path`.
pub fn file_uri(path: &str) -> (uri: String)
    ensures
        uri@ == "file://"@ + path@,
{
    let uri = String::from_str("file://");
    uri.concat(path)
}

} // verus!
