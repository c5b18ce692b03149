//! Guest output supervision.
//!
//! The runner boots the guest and reads its serial output line by line;
//! this module holds the decisions: capture what stands between the
//! program-output sentinels, and parse the reported exit code, with 127
//! standing in while none was seen. The process handling (spawning the
//! emulator, reading its pipe, the overall timeout) lives in the
//! surrounding binary.
use vstd::prelude::*;

verus! {

/// `pre` is a prefix of `s`.
pub open spec fn spec_starts_with(s: Seq<char>, pre: Seq<char>) -> bool {
    pre.len() <= s.len() && s.take(pre.len() as int) == pre
}

/// `pat` occurs in `s` at position `i`.
pub open spec fn spec_match_at(s: Seq<char>, pat: Seq<char>, i: int) -> bool {
    0 <= i && i + pat.len() <= s.len() && s.subrange(i, i + pat.len()) == pat
}

/// `pat` occurs somewhere in `s`.
pub open spec fn spec_contains(s: Seq<char>, pat: Seq<char>) -> bool {
    exists|i: int| spec_match_at(s, pat, i)
}

/// Whether `pat` occurs at position `i` of `s`.
fn match_at(s: &str, pat: &str, i: usize) -> (r: bool)
    requires
        i + pat@.len() <= s@.len(),
        s@.len() <= usize::MAX,
    ensures
        r == spec_match_at(s@, pat@, i as int),
{
    let m = pat.unicode_len();
    let mut j: usize = 0;
    while j < m
        invariant
            j <= m,
            m == pat@.len(),
            i + m <= s@.len(),
            s@.len() <= usize::MAX,
            forall|l: int| 0 <= l < j ==> s@[i + l] == pat@[l],
        decreases m - j,
    {
        if s.get_char(i + j) != pat.get_char(j) {
            proof {
                if spec_match_at(s@, pat@, i as int) {
                    assert(s@.subrange(i as int, i + pat@.len())[j as int] == pat@[j as int]);
                }
            }
            return false;
        }
        j = j + 1;
    }
    proof {
        assert(s@.subrange(i as int, i + pat@.len()) =~= pat@);
    }
    true
}

/// Whether `pat` occurs anywhere in `s`, as `spec_contains` says.
pub fn str_contains(s: &str, pat: &str) -> (r: bool)
    ensures
        r == spec_contains(s@, pat@),
{
    let n = s.unicode_len();
    let m = pat.unicode_len();
    if m > n {
        proof {
            assert forall|i: int| !spec_match_at(s@, pat@, i) by {}
        }
        return false;
    }
    if m == 0 {
        proof {
            assert(s@.subrange(0, 0) =~= pat@);
            assert(spec_match_at(s@, pat@, 0));
        }
        return true;
    }
    let limit: usize = n - m;
    let mut i: usize = 0;
    while i <= limit
        invariant
            i <= limit + 1,
            limit == n - m,
            1 <= m <= n,
            n == s@.len(),
            m == pat@.len(),
            forall|k: int| 0 <= k < i ==> !spec_match_at(s@, pat@, k),
        decreases limit + 1 - i,
    {
        if match_at(s, pat, i) {
            return true;
        }
        i = i + 1;
    }
    proof {
        assert forall|k: int| !spec_match_at(s@, pat@, k) by {
            if 0 <= k <= limit {
            }
        }
    }
    false
}

/// Whether `s` starts with `pre`, as `spec_starts_with` says.
pub fn str_starts_with(s: &str, pre: &str) -> (r: bool)
    ensures
        r == spec_starts_with(s@, pre@),
{
    let n = s.unicode_len();
    let m = pre.unicode_len();
    if m > n {
        return false;
    }
    let r = match_at(s, pre, 0);
    proof {
        assert(s@.subrange(0, pre@.len() as int) =~= s@.take(pre@.len() as int));
    }
    r
}

/// `s` with its leading spaces removed.
pub open spec fn spec_drop_leading_spaces(s: Seq<char>) -> Seq<char>
    decreases s.len(),
{
    if s.len() > 0 && s[0] == ' ' {
        spec_drop_leading_spaces(s.skip(1))
    } else {
        s
    }
}

/// `s` with its trailing spaces removed.
pub open spec fn spec_drop_trailing_spaces(s: Seq<char>) -> Seq<char>
    decreases s.len(),
{
    if s.len() > 0 && s.last() == ' ' {
        spec_drop_trailing_spaces(s.drop_last())
    } else {
        s
    }
}

/// `s` with spaces removed from both ends.
pub open spec fn spec_trim(s: Seq<char>) -> Seq<char> {
    spec_drop_trailing_spaces(spec_drop_leading_spaces(s))
}

/// A decimal digit's value.
pub open spec fn spec_digit(c: char) -> int {
    c as int - 48
}

/// Whether `c` is a decimal digit.
pub open spec fn spec_is_digit(c: char) -> bool {
    '0' <= c && c <= '9'
}

/// The value of an all-digit string, most significant digit first; a
/// string that is empty or holds any other character has none.
pub open spec fn spec_parse_dec(s: Seq<char>) -> Option<int>
    decreases s.len(),
{
    if s.len() == 0 {
        Option::None
    } else if !spec_is_digit(s.last()) {
        Option::None
    } else if s.len() == 1 {
        Option::Some(spec_digit(s[0]))
    } else {
        match spec_parse_dec(s.drop_last()) {
            Option::Some(v) => Option::Some(v * 10 + spec_digit(s.last())),
            Option::None => Option::None,
        }
    }
}

/// A string that parses at all parses to a non-negative value.
proof fn lemma_parse_dec_nonneg(s: Seq<char>)
    ensures
        spec_parse_dec(s) matches Some(v) ==> v >= 0,
    decreases s.len(),
{
    if s.len() > 1 {
        lemma_parse_dec_nonneg(s.drop_last());
    }
}

/// Parses an all-digit string into a non-negative 32-bit value; a string
/// that is not all digits, is empty, or whose value does not fit, has
/// none.
fn parse_dec_i32(s: &str) -> (r: Option<i32>)
    ensures
        r == match spec_parse_dec(s@) {
            Option::Some(v) => if v <= i32::MAX {
                Option::Some(v as i32)
            } else {
                Option::<i32>::None
            },
            Option::None => Option::None,
        },
{
    let n = s.unicode_len();
    if n == 0 {
        return None;
    }
    let mut acc: u64 = 0;
    let mut too_big = false;
    let mut i: usize = 0;
    while i < n
        invariant
            i <= n,
            n == s@.len(),
            n >= 1,
            i > 0 ==> (spec_parse_dec(s@.take(i as int)) matches Some(v) && (if too_big {
                v > i32::MAX
            } else {
                acc == v
            })),
            i == 0 ==> !too_big && acc == 0,
            !too_big ==> acc <= i32::MAX,
        decreases n - i,
    {
        let c = s.get_char(i);
        if c < '0' || c > '9' {
            proof {
                lemma_parse_none_extends(s@, i as int);
            }
            return None;
        }
        let d: u64 = (c as u32 - 48) as u64;
        proof {
            assert(s@.take(i + 1).drop_last() =~= s@.take(i as int));
            assert(s@.take(i + 1).last() == s@[i as int]);
            assert(spec_is_digit(s@[i as int]));
            if i > 0 {
                lemma_parse_dec_nonneg(s@.take(i as int));
            } else {
                assert(s@.take(1)[0] == s@[0]);
                assert(spec_parse_dec(s@.take(1)) == Option::Some(spec_digit(s@[0])));
            }
        }
        if too_big {
            proof {
                let prev = spec_parse_dec(s@.take(i as int)).unwrap();
                assert(spec_parse_dec(s@.take(i + 1)) == Option::Some(
                    prev * 10 + spec_digit(s@[i as int]),
                ));
                assert(prev * 10 + spec_digit(s@[i as int]) > i32::MAX) by (nonlinear_arith)
                    requires
                        prev > i32::MAX,
                        spec_digit(s@[i as int]) >= 0,
                ;
            }
        } else {
            let next = acc * 10 + d;
            if next > 0x7fff_ffff {
                too_big = true;
            } else {
                acc = next;
            }
        }
        i = i + 1;
    }
    proof {
        assert(s@.take(n as int) =~= s@);
    }
    if too_big {
        None
    } else {
        Some(acc as i32)
    }
}

/// A non-digit inside the string leaves the whole string without a value.
proof fn lemma_parse_none_extends(s: Seq<char>, i: int)
    requires
        0 <= i < s.len(),
        !spec_is_digit(s[i]),
    ensures
        spec_parse_dec(s) is None,
    decreases s.len(),
{
    if s.len() > 0 {
        if i == s.len() - 1 {
        } else {
            lemma_parse_none_extends(s.drop_last(), i);
        }
    }
}

/// Removes spaces from both ends, as `spec_trim` says.
fn trim_spaces<'a>(s: &'a str) -> (r: &'a str)
    ensures
        r@ == spec_trim(s@),
{
    let n = s.unicode_len();
    proof {
        assert(s@.skip(0) =~= s@);
    }
    let mut a: usize = 0;
    while a < n && s.get_char(a) == ' '
        invariant
            a <= n,
            n == s@.len(),
            spec_drop_leading_spaces(s@) == spec_drop_leading_spaces(s@.skip(a as int)),
        decreases n - a,
    {
        proof {
            assert(s@.skip(a as int)[0] == s@[a as int]);
            assert(s@.skip(a as int).skip(1) =~= s@.skip(a + 1));
        }
        a = a + 1;
    }
    proof {
        if a < n {
            assert(s@.skip(a as int)[0] == s@[a as int]);
        }
        assert(spec_drop_leading_spaces(s@) == s@.skip(a as int));
    }
    let mut b: usize = n;
    while b > a && s.get_char(b - 1) == ' '
        invariant
            a <= b <= n,
            n == s@.len(),
            spec_drop_leading_spaces(s@) == s@.skip(a as int),
            spec_drop_trailing_spaces(s@.skip(a as int)) == spec_drop_trailing_spaces(
                s@.subrange(a as int, b as int),
            ),
        decreases b,
    {
        proof {
            assert(s@.subrange(a as int, b as int).last() == s@[b - 1]);
            assert(s@.subrange(a as int, b as int).drop_last() =~= s@.subrange(a as int, b - 1));
        }
        b = b - 1;
    }
    proof {
        if b > a {
            assert(s@.subrange(a as int, b as int).last() == s@[b - 1]);
        }
        assert(spec_drop_trailing_spaces(s@.subrange(a as int, b as int)) == s@.subrange(
            a as int,
            b as int,
        ));
    }
    s.substring_char(a, b)
}

/// What one guest run produced: the exit code the guest reported and the
/// captured output between the sentinels.
#[derive(Debug)]
pub struct ExecutionResult {
    pub exit_code: i32,
    pub stdout: String,
    pub stderr: String,
}

/// Boots kernels under the emulator; holds the kernel image's path.
#[derive(Debug)]
pub struct QemuRunner {
    pub kernel_path: String,
}

impl QemuRunner {
    /// A runner for the kernel image at `kernel_path`.
    pub fn new(kernel_path: &str) -> (r: Self)
        ensures
            r.kernel_path@ == kernel_path@,
    {
        QemuRunner { kernel_path: kernel_path.to_owned() }
    }
}

/// The line-by-line supervisor of the guest's serial output.
#[derive(Debug)]
pub struct OutputParser {
    /// Between the program-output sentinel and the end sentinel.
    pub capturing: bool,
    /// What was captured so far, newline-terminated per line.
    pub captured: String,
    /// The exit code from the first line that reported one; 127 while none
    /// was seen.
    pub exit_code: i32,
    /// A reported exit code has been accepted; later reports are ignored.
    pub exit_code_seen: bool,
}

impl OutputParser {
    /// A fresh parser: not capturing, nothing captured, no exit code seen,
    /// 127 standing in.
    pub fn new() -> (r: Self)
        ensures
            !r.capturing,
            r.captured@.len() == 0,
            r.exit_code == 127,
            !r.exit_code_seen,
    {
        OutputParser { capturing: false, captured: String::new(), exit_code: 127, exit_code_seen: false }
    }

    /// Feeds one output line through the sentinel rules: the
    /// program-output sentinel starts capturing, the end sentinel stops
    /// it, the first line opening with `Exit code:` whose decimal parses
    /// and fits sets the exit code — later reports are ignored, the
    /// supervisor reads the first — and any other line is appended to the
    /// capture, newline-terminated, exactly while capturing.
    pub fn process_line(&mut self, line: &str)
        ensures
            ({
                let starts = spec_contains(line@, "--- PROGRAM OUTPUT ---"@);
                let ends = !starts && spec_contains(line@, "--- END OUTPUT ---"@);
                let exit = !starts && !ends && spec_starts_with(line@, "Exit code:"@);
                &&& final(self).capturing == (if starts {
                    true
                } else if ends {
                    false
                } else {
                    old(self).capturing
                })
                &&& final(self).exit_code == (if exit && !old(self).exit_code_seen {
                    match spec_parse_dec(spec_trim(line@.skip(10))) {
                        Option::Some(v) => if v <= i32::MAX {
                            v as i32
                        } else {
                            old(self).exit_code
                        },
                        Option::None => old(self).exit_code,
                    }
                } else {
                    old(self).exit_code
                })
                &&& final(self).exit_code_seen == (old(self).exit_code_seen || (exit
                    && match spec_parse_dec(spec_trim(line@.skip(10))) {
                    Option::Some(v) => v <= i32::MAX,
                    Option::None => false,
                }))
                &&& final(self).captured@ == (if !starts && !ends && !exit && old(
                    self,
                ).capturing {
                    old(self).captured@ + line@ + "\n"@
                } else {
                    old(self).captured@
                })
            }),
    {
        if str_contains(line, "--- PROGRAM OUTPUT ---") {
            self.capturing = true;
            return ;
        }
        if str_contains(line, "--- END OUTPUT ---") {
            self.capturing = false;
            return ;
        }
        if str_starts_with(line, "Exit code:") {
            if self.exit_code_seen {
                return ;
            }
            proof {
                reveal_strlit("Exit code:");
            }
            let rest = line.substring_char(10, line.unicode_len());
            proof {
                assert(rest@ =~= line@.skip(10));
            }
            let trimmed = trim_spaces(rest);
            match parse_dec_i32(trimmed) {
                Some(v) => {
                    self.exit_code = v;
                    self.exit_code_seen = true;
                },
                None => {},
            }
            return ;
        }
        if self.capturing {
            self.captured.append(line);
            self.captured.append("\n");
        }
    }

    /// Closes the run: the captured output and the first reported exit
    /// code; nothing is ever captured from the error stream.
    pub fn finish(self) -> (r: ExecutionResult)
        ensures
            r.exit_code == self.exit_code,
            r.stdout@ == self.captured@,
            r.stderr@.len() == 0,
    {
        ExecutionResult { exit_code: self.exit_code, stdout: self.captured, stderr: String::new() }
    }
}

} // verus!
