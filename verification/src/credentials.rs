//! Credentials and their persisted form.
//!
//! Credentials are an access token, a refresh token, an expiry timestamp and
//! the granted scopes. They persist as two plain-text files: the access-token
//! file carries the access token on its first line, the expiry (decimal
//! seconds since the epoch) on its second, and one granted scope per further
//! line; the refresh-token file is the refresh token verbatim. `save` renders
//! the two file bodies and `load` reads them back; rendering followed by
//! parsing returns the credentials unchanged, which is proved below. Writing
//! the bodies to disk (atomically, write-temp-then-rename) is the driver's
//! job, as is reading them back: a missing file is handed in as `None` and
//! means absent credentials, not an error.

use vstd::prelude::*;

verus! {

// ---------------------------------------------------------------------------
// Decimal rendering and parsing of the expiry timestamp.
// ---------------------------------------------------------------------------

/// The ten decimal digit characters.
pub open spec fn is_digit(c: char) -> bool {
    c == '0' || c == '1' || c == '2' || c == '3' || c == '4' || c == '5' || c == '6' || c == '7'
        || c == '8' || c == '9'
}

/// The numeric value of a digit character.
pub open spec fn digit_val(c: char) -> nat {
    if c == '0' {
        0
    } else if c == '1' {
        1
    } else if c == '2' {
        2
    } else if c == '3' {
        3
    } else if c == '4' {
        4
    } else if c == '5' {
        5
    } else if c == '6' {
        6
    } else if c == '7' {
        7
    } else if c == '8' {
        8
    } else {
        9
    }
}

/// The digit character of a value below ten.
pub open spec fn dec_digit(d: nat) -> char {
    if d == 0 {
        '0'
    } else if d == 1 {
        '1'
    } else if d == 2 {
        '2'
    } else if d == 3 {
        '3'
    } else if d == 4 {
        '4'
    } else if d == 5 {
        '5'
    } else if d == 6 {
        '6'
    } else if d == 7 {
        '7'
    } else if d == 8 {
        '8'
    } else {
        '9'
    }
}

/// The canonical decimal rendering of `n`: no sign, no leading zero except
/// for zero itself.
pub open spec fn dec_seq(n: nat) -> Seq<char>
    decreases n,
{
    if n < 10 {
        seq![dec_digit(n)]
    } else {
        dec_seq(n / 10).push(dec_digit(n % 10))
    }
}

/// Every character is a decimal digit.
pub open spec fn all_digits(s: Seq<char>) -> bool {
    forall|i: int| 0 <= i < s.len() ==> is_digit(#[trigger] s[i])
}

/// The value of a digit string, most significant digit first.
pub open spec fn dec_val(s: Seq<char>) -> nat
    decreases s.len(),
{
    if s.len() == 0 {
        0
    } else {
        dec_val(s.drop_last()) * 10 + digit_val(s.last())
    }
}

/// The rendering of any value consists of digits only — in particular it
/// holds no newline — and is never empty.
pub proof fn lemma_dec_seq_digits(n: nat)
    ensures
        all_digits(dec_seq(n)),
        dec_seq(n).len() >= 1,
    decreases n,
{
    if n >= 10 {
        lemma_dec_seq_digits(n / 10);
    }
}

/// Parsing inverts rendering: the value of the rendering of `n` is `n`.
pub proof fn lemma_dec_val_of_dec_seq(n: nat)
    ensures
        dec_val(dec_seq(n)) == n,
    decreases n,
{
    if n < 10 {
        assert(dec_seq(n).drop_last() =~= Seq::<char>::empty());
        assert(dec_seq(n).last() == dec_digit(n));
        assert(digit_val(dec_digit(n)) == n);
        assert(dec_seq(n).len() == 1);
        assert(dec_val(dec_seq(n)) == dec_val(dec_seq(n).drop_last()) * 10 + digit_val(
            dec_seq(n).last(),
        ));
        assert(dec_val(dec_seq(n).drop_last()) == 0);
    } else {
        lemma_dec_val_of_dec_seq(n / 10);
        assert(dec_seq(n).drop_last() =~= dec_seq(n / 10));
        assert(dec_seq(n).last() == dec_digit(n % 10));
        assert(n % 10 < 10);
        assert(digit_val(dec_digit(n % 10)) == n % 10);
        assert(n / 10 * 10 + n % 10 == n) by (nonlinear_arith);
    }
}

/// One digit string of a value below ten.
fn digit_str(d: u64) -> (r: &'static str)
    requires
        d < 10,
    ensures
        r@ =~= seq![dec_digit(d as nat)],
{
    if d == 0 {
        proof {
            reveal_strlit("0");
        }
        "0"
    } else if d == 1 {
        proof {
            reveal_strlit("1");
        }
        "1"
    } else if d == 2 {
        proof {
            reveal_strlit("2");
        }
        "2"
    } else if d == 3 {
        proof {
            reveal_strlit("3");
        }
        "3"
    } else if d == 4 {
        proof {
            reveal_strlit("4");
        }
        "4"
    } else if d == 5 {
        proof {
            reveal_strlit("5");
        }
        "5"
    } else if d == 6 {
        proof {
            reveal_strlit("6");
        }
        "6"
    } else if d == 7 {
        proof {
            reveal_strlit("7");
        }
        "7"
    } else if d == 8 {
        proof {
            reveal_strlit("8");
        }
        "8"
    } else {
        proof {
            reveal_strlit("9");
        }
        "9"
    }
}

/// Renders `n` in canonical decimal.
pub fn u64_to_dec(n: u64) -> (s: String)
    ensures
        s@ == dec_seq(n as nat),
    decreases n,
{
    if n < 10 {
        String::from_str(digit_str(n))
    } else {
        let mut s = u64_to_dec(n / 10);
        s.append(digit_str(n % 10));
        proof {
            assert(s@ =~= dec_seq((n / 10) as nat).push(dec_digit((n % 10) as nat)));
        }
        s
    }
}

/// One parsed prefix step: the value of a digit string grows by one digit.
proof fn lemma_dec_val_step(s: Seq<char>, i: int)
    requires
        0 <= i < s.len(),
    ensures
        dec_val(s.take(i + 1)) == dec_val(s.take(i)) * 10 + digit_val(s[i]),
{
    assert(s.take(i + 1).drop_last() =~= s.take(i));
    assert(s.take(i + 1).last() == s[i]);
}

/// The value of a prefix never exceeds the value of the whole digit string.
proof fn lemma_dec_val_take_le(s: Seq<char>, i: int)
    requires
        0 <= i <= s.len(),
    ensures
        dec_val(s.take(i)) <= dec_val(s),
    decreases s.len() - i,
{
    if i == s.len() {
        assert(s.take(i) =~= s);
    } else {
        lemma_dec_val_step(s, i);
        lemma_dec_val_take_le(s, i + 1);
    }
}

/// Parses a canonical or non-canonical decimal string. Returns the value
/// exactly when the string is non-empty, consists of digits only, and its
/// value fits in a `u64`; returns nothing otherwise.
pub fn dec_to_u64(s: &str) -> (r: Option<u64>)
    ensures
        r is Some <==> (s@.len() > 0 && all_digits(s@) && dec_val(s@) <= u64::MAX),
        r matches Some(n) ==> n == dec_val(s@),
{
    let n = s.unicode_len();
    if n == 0 {
        return None;
    }
    let mut acc: u64 = 0;
    let mut i: usize = 0;
    while i < n
        invariant
            0 < n == s@.len(),
            i <= n,
            all_digits(s@.take(i as int)),
            acc == dec_val(s@.take(i as int)),
        decreases n - i,
    {
        let c = s.get_char(i);
        let d: u64 = if c == '0' {
            0
        } else if c == '1' {
            1
        } else if c == '2' {
            2
        } else if c == '3' {
            3
        } else if c == '4' {
            4
        } else if c == '5' {
            5
        } else if c == '6' {
            6
        } else if c == '7' {
            7
        } else if c == '8' {
            8
        } else if c == '9' {
            9
        } else {
            return None;
        };
        proof {
            assert(is_digit(s@[i as int]) && d == digit_val(s@[i as int]));
            lemma_dec_val_step(s@, i as int);
            assert(s@.take(i + 1 as int).take(i as int) =~= s@.take(i as int));
        }
        if acc > (u64::MAX - d) / 10 {
            proof {
                let q = ((u64::MAX - d) / 10) as nat;
                assert(acc * 10 + d > u64::MAX) by (nonlinear_arith)
                    requires
                        acc > q,
                        q == ((u64::MAX as nat - d as nat) / 10),
                        d < 10,
                ;
                lemma_dec_val_take_le(s@, i + 1);
            }
            return None;
        }
        proof {
            assert(acc * 10 + d <= u64::MAX) by (nonlinear_arith)
                requires
                    acc <= ((u64::MAX as nat - d as nat) / 10),
                    d < 10,
            ;
        }
        acc = acc * 10 + d;
        i = i + 1;
    }
    proof {
        assert(s@.take(n as int) =~= s@);
    }
    Some(acc)
}

// ---------------------------------------------------------------------------
// Newline-terminated lines: rendering and splitting.
// ---------------------------------------------------------------------------

/// The views of a sequence of strings.
pub open spec fn views_of(v: Seq<String>) -> Seq<Seq<char>> {
    v.map_values(|x: String| x@)
}

/// The file body of a sequence of lines: each line followed by one newline.
pub open spec fn join_lines(lines: Seq<Seq<char>>) -> Seq<char>
    decreases lines.len(),
{
    if lines.len() == 0 {
        Seq::<char>::empty()
    } else {
        lines.first() + seq!['\n'] + join_lines(lines.drop_first())
    }
}

/// Appending one line extends the body by the line and its terminator.
pub proof fn lemma_join_push(lines: Seq<Seq<char>>, x: Seq<char>)
    ensures
        join_lines(lines.push(x)) == join_lines(lines) + x + seq!['\n'],
    decreases lines.len(),
{
    if lines.len() == 0 {
        assert(lines.push(x).drop_first() =~= Seq::<Seq<char>>::empty());
        assert(lines.push(x).first() == x);
        assert(join_lines(Seq::<Seq<char>>::empty()) == Seq::<char>::empty());
        assert(join_lines(lines.push(x)) =~= join_lines(lines) + x + seq!['\n']);
    } else {
        lemma_join_push(lines.drop_first(), x);
        assert(lines.push(x).drop_first() =~= lines.drop_first().push(x));
        assert(lines.push(x).first() == lines.first());
        assert(join_lines(lines.push(x)) =~= join_lines(lines) + x + seq!['\n']);
    }
}

/// The position of the first newline, or -1 when there is none.
pub open spec fn first_nl(s: Seq<char>) -> int
    decreases s.len(),
{
    if s.len() == 0 {
        -1
    } else if s.first() == '\n' {
        0
    } else {
        let r = first_nl(s.drop_first());
        if r < 0 {
            -1
        } else {
            r + 1
        }
    }
}

/// What `first_nl` returns: -1 exactly when there is no newline; otherwise
/// the index of a newline that no newline precedes.
pub proof fn lemma_first_nl(s: Seq<char>)
    ensures
        first_nl(s) == -1 ==> forall|k: int| 0 <= k < s.len() ==> s[k] != '\n',
        first_nl(s) >= 0 ==> 0 <= first_nl(s) < s.len() && s[first_nl(s)] == '\n' && forall|
            k: int,
        | 0 <= k < first_nl(s) ==> s[k] != '\n',
    decreases s.len(),
{
    if s.len() > 0 && s.first() != '\n' {
        lemma_first_nl(s.drop_first());
        assert(forall|k: int| 1 <= k < s.len() ==> s[k] == s.drop_first()[k - 1]);
    }
}

/// In a body that starts with a newline-free line and its terminator, the
/// first newline sits exactly at the end of that line.
pub proof fn lemma_first_nl_of_line(l: Seq<char>, rest: Seq<char>)
    requires
        !l.contains('\n'),
    ensures
        first_nl(l + seq!['\n'] + rest) == l.len(),
    decreases l.len(),
{
    let s = l + seq!['\n'] + rest;
    if l.len() == 0 {
        assert(s.first() == '\n');
    } else {
        assert(l[0] != '\n');
        assert(s.first() == l[0]);
        assert(!l.drop_first().contains('\n')) by {
            assert(forall|k: int| 0 <= k < l.drop_first().len() ==> l.drop_first()[k] == l[k + 1]);
        }
        lemma_first_nl_of_line(l.drop_first(), rest);
        assert(s.drop_first() =~= l.drop_first() + seq!['\n'] + rest);
    }
}

/// The lines of a body: maximal newline-free runs, each ended by a newline;
/// a dangling run at the end of the body counts as a final line.
pub open spec fn spec_lines(s: Seq<char>) -> Seq<Seq<char>>
    decreases s.len(),
{
    if s.len() == 0 {
        Seq::<Seq<char>>::empty()
    } else {
        let r = first_nl(s);
        if r < 0 || r >= s.len() {
            seq![s]
        } else {
            seq![s.take(r)] + spec_lines(s.skip(r + 1))
        }
    }
}

/// No line of a body holds a newline.
pub proof fn lemma_spec_lines_newline_free(s: Seq<char>)
    ensures
        forall|i: int| 0 <= i < spec_lines(s).len() ==> !(#[trigger] spec_lines(s)[i]).contains(
            '\n',
        ),
    decreases s.len(),
{
    lemma_first_nl(s);
    if s.len() > 0 {
        let r = first_nl(s);
        if r < 0 {
            assert(!s.contains('\n'));
        } else {
            lemma_spec_lines_newline_free(s.skip(r + 1));
            assert(!s.take(r).contains('\n')) by {
                assert(forall|k: int| 0 <= k < r ==> s.take(r)[k] == s[k]);
            }
            assert(forall|i: int|
                1 <= i < spec_lines(s).len() ==> spec_lines(s)[i] == spec_lines(s.skip(r + 1))[i
                    - 1]);
        }
    }
}

/// Splitting inverts rendering: the lines of the body of any newline-free
/// line sequence are that sequence.
pub proof fn lemma_lines_of_join(lines: Seq<Seq<char>>)
    requires
        forall|i: int| 0 <= i < lines.len() ==> !(#[trigger] lines[i]).contains('\n'),
    ensures
        spec_lines(join_lines(lines)) == lines,
    decreases lines.len(),
{
    if lines.len() > 0 {
        let l = lines.first();
        let rest = join_lines(lines.drop_first());
        let s = l + seq!['\n'] + rest;
        assert(join_lines(lines) == s);
        lemma_first_nl_of_line(l, rest);
        assert(s.len() > 0);
        assert(first_nl(s) == l.len());
        assert(s.take(l.len() as int) =~= l);
        assert(s.skip(l.len() as int + 1) =~= rest);
        assert(forall|i: int|
            0 <= i < lines.drop_first().len() ==> lines.drop_first()[i] == lines[i + 1]);
        lemma_lines_of_join(lines.drop_first());
        assert(spec_lines(s) =~= seq![l] + lines.drop_first());
        assert(seq![l] + lines.drop_first() =~= lines);
    }
}

/// Whether the string holds a newline.
pub fn contains_newline(s: &str) -> (b: bool)
    ensures
        b == s@.contains('\n'),
{
    let n = s.unicode_len();
    let mut i: usize = 0;
    while i < n
        invariant
            i <= n == s@.len(),
            forall|k: int| 0 <= k < i ==> s@[k] != '\n',
        decreases n - i,
    {
        if s.get_char(i) == '\n' {
            return true;
        }
        i = i + 1;
    }
    false
}

/// Splits a body into its lines, exactly as [`spec_lines`] states.
pub fn split_lines(s: &str) -> (v: Vec<String>)
    ensures
        views_of(v@) == spec_lines(s@),
{
    let n = s.unicode_len();
    let mut v: Vec<String> = Vec::new();
    let mut pos: usize = 0;
    proof {
        assert(s@.skip(0) =~= s@);
        assert(views_of(v@) =~= Seq::<Seq<char>>::empty());
    }
    while pos < n
        invariant
            pos <= n == s@.len(),
            spec_lines(s@) == views_of(v@) + spec_lines(s@.skip(pos as int)),
        decreases n - pos,
    {
        let ghost tail = s@.skip(pos as int);
        let mut j: usize = pos;
        while j < n && s.get_char(j) != '\n'
            invariant
                pos <= j <= n == s@.len(),
                forall|k: int| pos <= k < j ==> s@[k] != '\n',
            decreases n - j,
        {
            j = j + 1;
        }
        proof {
            lemma_first_nl(tail);
            assert(forall|k: int| 0 <= k < tail.len() ==> tail[k] == s@[k + pos]);
            if j < n {
                assert(tail[j - pos] == '\n');
                assert(first_nl(tail) == j - pos) by {
                    if first_nl(tail) < 0 {
                        assert(tail[j - pos] != '\n');
                    } else if first_nl(tail) < j - pos {
                        assert(s@[first_nl(tail) + pos] != '\n');
                    } else if first_nl(tail) > j - pos {
                        assert(tail[j - pos] != '\n');
                    }
                }
            } else {
                assert(first_nl(tail) == -1) by {
                    if first_nl(tail) >= 0 {
                        assert(s@[first_nl(tail) + pos] != '\n');
                    }
                }
            }
        }
        if j < n {
            let line = s.substring_char(pos, j);
            v.push(String::from_str(line));
            proof {
                assert(tail.take(j - pos) =~= s@.subrange(pos as int, j as int));
                assert(tail.skip(j - pos + 1) =~= s@.skip(j + 1 as int));
                assert(spec_lines(tail) =~= seq![line@] + spec_lines(s@.skip(j + 1 as int)));
                assert(views_of(v@) =~= views_of(v@.drop_last()).push(line@));
                assert(views_of(v@) + spec_lines(s@.skip(j + 1 as int)) =~= spec_lines(s@));
            }
            pos = j + 1;
        } else {
            let line = s.substring_char(pos, n);
            v.push(String::from_str(line));
            proof {
                assert(tail =~= s@.subrange(pos as int, n as int));
                assert(spec_lines(tail) =~= seq![line@]);
                assert(views_of(v@) =~= views_of(v@.drop_last()).push(line@));
                assert(s@.skip(n as int) =~= Seq::<char>::empty());
                assert(views_of(v@) + spec_lines(s@.skip(n as int)) =~= spec_lines(s@));
            }
            pos = n;
        }
    }
    proof {
        assert(s@.skip(n as int) =~= Seq::<char>::empty());
        assert(views_of(v@) =~= spec_lines(s@));
    }
    v
}

// ---------------------------------------------------------------------------
// Credentials and the two file bodies.
// ---------------------------------------------------------------------------

/// An access token with its refresh token, expiry and granted scopes.
/// The access token is never used past its expiry without a refresh
/// attempt; that policy lives with the token authenticator.
#[derive(Debug)]
pub struct Credentials {
    pub access_token: String,
    /// Exchanged for a fresh access token when the current one expires.
    pub refresh_token: String,
    /// Seconds since the epoch after which the access token is stale.
    pub expires_at: u64,
    /// The named permission grants attached to the access token.
    pub scopes: Vec<String>,
}

impl Credentials {
    /// Valid credentials: tokens and scopes are single-line values, so the
    /// line-based persisted form can carry them.
    pub open spec fn wf(&self) -> bool {
        !self.access_token@.contains('\n') && !self.refresh_token@.contains('\n') && forall|i: int|
            0 <= i < self.scopes@.len() ==> !(#[trigger] self.scopes@[i])@.contains('\n')
    }
}

/// The lines of the access-token file: token, expiry, one scope per line.
pub open spec fn access_lines_of(c: Credentials) -> Seq<Seq<char>> {
    seq![c.access_token@, dec_seq(c.expires_at as nat)] + views_of(c.scopes@)
}

/// The body of the access-token file.
pub open spec fn access_file_of(c: Credentials) -> Seq<char> {
    join_lines(access_lines_of(c))
}

/// The body of the refresh-token file: the refresh token verbatim.
pub open spec fn refresh_file_of(c: Credentials) -> Seq<char> {
    c.refresh_token@
}

/// Whether a pair of file bodies parses as credentials: the access-token
/// file must hold at least the token line and an expiry line whose digits
/// fit a `u64`, and the refresh-token file must be a single line.
pub open spec fn parse_ok(a: Seq<char>, rf: Seq<char>) -> bool {
    let lines = spec_lines(a);
    lines.len() >= 2 && lines[1].len() > 0 && all_digits(lines[1]) && dec_val(lines[1])
        <= u64::MAX && !rf.contains('\n')
}

/// Renders the two file bodies of `c`: the access-token file and the
/// refresh-token file, exactly as [`access_file_of`] and
/// [`refresh_file_of`] state. The driver writes each body to its
/// caller-supplied path atomically (write-temp-then-rename), so no partial
/// file is ever observed.
pub fn save(c: &Credentials) -> (r: (String, String))
    ensures
        r.0@ == access_file_of(*c),
        r.1@ == refresh_file_of(*c),
{
    let ghost head: Seq<Seq<char>> = seq![c.access_token@, dec_seq(c.expires_at as nat)];
    let mut s = String::new();
    s.append(c.access_token.as_str());
    s.append("\n");
    let expiry = u64_to_dec(c.expires_at);
    s.append(expiry.as_str());
    s.append("\n");
    proof {
        reveal_strlit("\n");
        assert("\n"@ =~= seq!['\n']);
        assert(head.first() == c.access_token@);
        assert(head.drop_first() =~= seq![dec_seq(c.expires_at as nat)]);
        assert(head.drop_first().first() == dec_seq(c.expires_at as nat));
        assert(head.drop_first().drop_first() =~= Seq::<Seq<char>>::empty());
        assert(join_lines(Seq::<Seq<char>>::empty()) == Seq::<char>::empty());
        assert(join_lines(head.drop_first()) == dec_seq(c.expires_at as nat) + seq!['\n']
            + join_lines(head.drop_first().drop_first()));
        assert(s@ =~= join_lines(head + views_of(c.scopes@.take(0))));
    }
    let mut i: usize = 0;
    while i < c.scopes.len()
        invariant
            i <= c.scopes@.len(),
            s@ == join_lines(head + views_of(c.scopes@.take(i as int))),
            head == seq![c.access_token@, dec_seq(c.expires_at as nat)],
        decreases c.scopes@.len() - i,
    {
        s.append(c.scopes[i].as_str());
        s.append("\n");
        proof {
            reveal_strlit("\n");
            assert("\n"@ =~= seq!['\n']);
            lemma_join_push(head + views_of(c.scopes@.take(i as int)), c.scopes@[i as int]@);
            assert((head + views_of(c.scopes@.take(i as int))).push(c.scopes@[i as int]@) =~= head
                + views_of(c.scopes@.take(i + 1 as int)));
            assert(s@ =~= join_lines(head + views_of(c.scopes@.take(i + 1 as int))));
        }
        i = i + 1;
    }
    proof {
        assert(c.scopes@.take(c.scopes@.len() as int) =~= c.scopes@);
        assert(head + views_of(c.scopes@) =~= access_lines_of(*c));
    }
    let refresh = c.refresh_token.clone();
    (s, refresh)
}

/// Parses the two file bodies back into credentials. Succeeds exactly when
/// [`parse_ok`] holds of the bodies; the result then carries the first line
/// of the access-token file as the token, the second line's value as the
/// expiry, every further line as a scope, and the refresh-token file as the
/// refresh token, and is valid.
pub fn parse_files(a: &str, rf: &str) -> (r: Option<Credentials>)
    ensures
        r is Some <==> parse_ok(a@, rf@),
        r matches Some(c) ==> ({
            &&& c.access_token@ == spec_lines(a@)[0]
            &&& c.expires_at as nat == dec_val(spec_lines(a@)[1])
            &&& views_of(c.scopes@) == spec_lines(a@).skip(2)
            &&& c.refresh_token@ == rf@
            &&& c.wf()
        }),
{
    if contains_newline(rf) {
        return None;
    }
    let mut lines = split_lines(a);
    let ghost lv = lines@;
    if lines.len() < 2 {
        return None;
    }
    proof {
        lemma_spec_lines_newline_free(a@);
        assert(forall|i: int| 0 <= i < lv.len() ==> views_of(lv)[i] == (#[trigger] lv[i])@);
    }
    let access_token = lines.remove(0);
    let expiry_line = lines.remove(0);
    proof {
        assert(lines@ =~= lv.skip(2));
        assert(access_token@ == views_of(lv)[0]);
        assert(expiry_line@ == views_of(lv)[1]);
    }
    let expires_at = match dec_to_u64(expiry_line.as_str()) {
        Some(n) => n,
        None => {
            return None;
        },
    };
    let refresh_token = String::from_str(rf);
    let c = Credentials { access_token, refresh_token, expires_at, scopes: lines };
    proof {
        assert(forall|i: int|
            0 <= i < c.scopes@.len() ==> (#[trigger] c.scopes@[i])@ == views_of(lv)[i + 2]);
        assert(views_of(c.scopes@) =~= spec_lines(a@).skip(2));
        assert(forall|i: int| 0 <= i < c.scopes@.len() ==> !(#[trigger] c.scopes@[i])@.contains(
            '\n',
        ));
        assert(c.wf());
    }
    Some(c)
}

/// Reads credentials back from what the driver found on disk. A missing
/// file is absent credentials, not an error: the result is `Some` exactly
/// when both files were present and their bodies parse.
pub fn load(access_file: Option<&str>, refresh_file: Option<&str>) -> (r: Option<Credentials>)
    ensures
        r is Some <==> (access_file matches Some(a) && refresh_file matches Some(rf) && parse_ok(
            a@,
            rf@,
        )),
        r matches Some(c) ==> (access_file matches Some(a) && refresh_file matches Some(rf) && ({
            &&& c.access_token@ == spec_lines(a@)[0]
            &&& c.expires_at as nat == dec_val(spec_lines(a@)[1])
            &&& views_of(c.scopes@) == spec_lines(a@).skip(2)
            &&& c.refresh_token@ == rf@
            &&& c.wf()
        })),
{
    match (access_file, refresh_file) {
        (Some(a), Some(rf)) => parse_files(a, rf),
        _ => None,
    }
}

/// Round trip: the file bodies rendered from any valid credentials parse,
/// and parse back to exactly the same credentials — token, refresh token,
/// expiry and scopes alike. With `save`'s and `load`'s contracts this says
/// `load` after `save` returns `Some` of the saved value, across a process
/// restart, since the two file bodies are all the state there is.
pub proof fn lemma_save_load_roundtrip(c: Credentials)
    requires
        c.wf(),
    ensures
        parse_ok(access_file_of(c), refresh_file_of(c)),
        spec_lines(access_file_of(c))[0] == c.access_token@,
        dec_val(spec_lines(access_file_of(c))[1]) == c.expires_at as nat,
        spec_lines(access_file_of(c)).skip(2) == views_of(c.scopes@),
        refresh_file_of(c) == c.refresh_token@,
{
    let lines = access_lines_of(c);
    lemma_dec_seq_digits(c.expires_at as nat);
    assert(forall|i: int| 0 <= i < c.scopes@.len() ==> views_of(c.scopes@)[i] == c.scopes@[i]@);
    assert(forall|i: int| 0 <= i < lines.len() ==> !(#[trigger] lines[i]).contains('\n')) by {
        assert(lines[0] == c.access_token@);
        assert(lines[1] == dec_seq(c.expires_at as nat));
        assert(forall|i: int| 2 <= i < lines.len() ==> lines[i] == c.scopes@[i - 2]@);
        assert(!dec_seq(c.expires_at as nat).contains('\n')) by {
            if dec_seq(c.expires_at as nat).contains('\n') {
                let k = choose|k: int|
                    0 <= k < dec_seq(c.expires_at as nat).len() && dec_seq(c.expires_at as nat)[k]
                        == '\n';
                assert(is_digit(dec_seq(c.expires_at as nat)[k]));
            }
        }
    }
    lemma_lines_of_join(lines);
    lemma_dec_val_of_dec_seq(c.expires_at as nat);
    assert(spec_lines(access_file_of(c)).skip(2) =~= views_of(c.scopes@));
}

} // verus!
