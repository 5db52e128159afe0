//! Parsing of the interactive client's command line: one input line is
//! split into whitespace-separated tokens, the first token names the
//! command, and the rest are its arguments. All of it works on raw bytes;
//! token boundaries are the ASCII whitespace bytes.

use vstd::prelude::*;
use vstd::string::StringSliceAdditionalSpecFns;

verus! {

/// A command of the interactive client.
pub enum Command {
    /// Open one connection.
    Connect,
    /// Open this many connections.
    ConnectMultiple(usize),
    /// Close the connection with this id.
    Close(usize),
    /// Close every open connection.
    CloseAll,
    /// List the open connections.
    List,
    /// Send this text on the connection with this id.
    Send(usize, Vec<u8>),
    /// Show the command summary.
    Help,
    /// Close everything and leave.
    Quit,
}

/// A command with its payloads abstracted to their views.
pub enum CommandModel {
    Connect,
    ConnectMultiple(int),
    Close(int),
    CloseAll,
    List,
    Send(int, Seq<u8>),
    Help,
    Quit,
}

/// The view of an executable command.
pub open spec fn command_model(c: Command) -> CommandModel {
    match c {
        Command::Connect => CommandModel::Connect,
        Command::ConnectMultiple(n) => CommandModel::ConnectMultiple(n as int),
        Command::Close(n) => CommandModel::Close(n as int),
        Command::CloseAll => CommandModel::CloseAll,
        Command::List => CommandModel::List,
        Command::Send(n, m) => CommandModel::Send(n as int, m@),
        Command::Help => CommandModel::Help,
        Command::Quit => CommandModel::Quit,
    }
}

/// Why a line is no command.
#[derive(Clone, Copy, PartialEq, Eq, Structural, Debug)]
pub enum ParseError {
    /// The line holds no token.
    Empty,
    /// The count after `connect` is no usable number.
    InvalidCount,
    /// More than one argument after `connect`.
    ConnectUsage,
    /// No argument after `close`.
    CloseUsage,
    /// The connection id is no usable number.
    InvalidId,
    /// Fewer than two arguments after `send`.
    SendUsage,
    /// The first token names no command.
    Unknown,
}

/// The ASCII whitespace bytes that separate tokens.
pub open spec fn is_space(b: u8) -> bool {
    b == 32 || (9 <= b && b <= 13)
}

/// The whitespace-separated tokens of a line, in order, each non-empty.
pub open spec fn tokens_of(s: Seq<u8>) -> Seq<Seq<u8>>
    decreases s.len(),
{
    if s.len() == 0 {
        seq![]
    } else {
        let rest = tokens_of(s.drop_last());
        let b = s.last();
        if is_space(b) {
            rest
        } else if s.len() >= 2 && !is_space(s[s.len() - 2]) {
            rest.update(rest.len() - 1, rest.last().push(b))
        } else {
            rest.push(seq![b])
        }
    }
}

/// Whether one byte is a token separator.
fn is_space_byte(b: u8) -> (r: bool)
    ensures
        r == is_space(b),
{
    b == 32 || (9 <= b && b <= 13)
}

/// Split a line into its whitespace-separated tokens.
pub fn tokenize(s: &[u8]) -> (toks: Vec<Vec<u8>>)
    ensures
        toks.deep_view() == tokens_of(s@),
{
    let mut toks: Vec<Vec<u8>> = Vec::new();
    let mut i: usize = 0;
    while i < s.len()
        invariant
            i <= s@.len(),
            toks.deep_view() == tokens_of(s@.subrange(0, i as int)),
            i > 0 && !is_space(s@[i - 1]) ==> toks@.len() > 0,
        decreases s@.len() - i,
    {
        let ghost pre = s@.subrange(0, i as int);
        let ghost cur = s@.subrange(0, i + 1 as int);
        proof {
            assert(cur.drop_last() =~= pre);
            assert(cur.last() == s@[i as int]);
        }
        let b = s[i];
        if !is_space_byte(b) {
            if i > 0 && !is_space_byte(s[i - 1]) {
                let mut last = toks.pop().unwrap();
                last.push(b);
                toks.push(last);
                proof {
                    assert(toks.deep_view() =~~= tokens_of(cur));
                }
            } else {
                let mut t: Vec<u8> = Vec::new();
                t.push(b);
                toks.push(t);
                proof {
                    assert(toks.deep_view() =~~= tokens_of(cur));
                }
            }
        }
        i = i + 1;
    }
    proof {
        assert(s@.subrange(0, s@.len() as int) =~= s@);
        assert(toks.deep_view() =~~= tokens_of(s@));
    }
    toks
}

/// An upper-case ASCII letter folded to lower case; every other byte kept.
pub open spec fn lower_byte(b: u8) -> u8 {
    if 65 <= b && b <= 90 {
        (b + 32) as u8
    } else {
        b
    }
}

/// A token folded to lower case, byte by byte.
pub open spec fn lower_bytes(t: Seq<u8>) -> Seq<u8> {
    t.map_values(|b: u8| lower_byte(b))
}

/// Fold a token to lower case.
fn to_lower(t: &[u8]) -> (r: Vec<u8>)
    ensures
        r@ == lower_bytes(t@),
{
    let mut r: Vec<u8> = Vec::new();
    let mut i: usize = 0;
    while i < t.len()
        invariant
            i <= t@.len(),
            r@ == lower_bytes(t@.subrange(0, i as int)),
        decreases t@.len() - i,
    {
        let b = t[i];
        if 65 <= b && b <= 90 {
            r.push(b + 32);
        } else {
            r.push(b);
        }
        proof {
            assert(r@ =~= lower_bytes(t@.subrange(0, i + 1 as int)));
        }
        i = i + 1;
    }
    proof {
        assert(t@.subrange(0, t@.len() as int) =~= t@);
    }
    r
}

/// Whether two byte slices hold the same bytes.
fn bytes_eq(a: &[u8], b: &[u8]) -> (r: bool)
    ensures
        r == (a@ == b@),
{
    if a.len() != b.len() {
        proof {
            assert(a@ != b@);
        }
        return false;
    }
    let mut i: usize = 0;
    while i < a.len()
        invariant
            i <= a@.len(),
            a@.len() == b@.len(),
            forall|j: int| 0 <= j < i ==> a@[j] == b@[j],
        decreases a@.len() - i,
    {
        if a[i] != b[i] {
            proof {
                assert(a@ != b@);
            }
            return false;
        }
        i = i + 1;
    }
    proof {
        assert(a@ =~= b@);
    }
    true
}

/// An ASCII decimal digit.
pub open spec fn is_digit(b: u8) -> bool {
    48 <= b && b <= 57
}

/// Every byte of the token is a digit.
pub open spec fn all_digits(t: Seq<u8>) -> bool {
    forall|j: int| 0 <= j < t.len() ==> is_digit(#[trigger] t[j])
}

/// The number the digits spell, most significant first.
pub open spec fn dec_value(t: Seq<u8>) -> int
    decreases t.len(),
{
    if t.len() == 0 {
        0
    } else {
        dec_value(t.drop_last()) * 10 + (t.last() - 48)
    }
}

/// The digit part of a numeric token: one leading plus sign may stand
/// before the digits, as the usual decimal form allows.
pub open spec fn digits_of(t: Seq<u8>) -> Seq<u8> {
    if t.len() >= 2 && t[0] == 43 {
        t.drop_first()
    } else {
        t
    }
}

/// A token spells a number the id type can hold.
pub open spec fn parses_as_usize(t: Seq<u8>) -> bool {
    &&& digits_of(t).len() > 0
    &&& all_digits(digits_of(t))
    &&& dec_value(digits_of(t)) <= usize::MAX
}

/// The value of a digit prefix is never negative.
proof fn lemma_dec_nonneg(t: Seq<u8>, i: int)
    requires
        0 <= i <= t.len(),
        all_digits(t),
    ensures
        dec_value(t.subrange(0, i)) >= 0,
    decreases i,
{
    if i > 0 {
        lemma_dec_nonneg(t, i - 1);
        assert(t.subrange(0, i).drop_last() =~= t.subrange(0, i - 1));
    }
}

/// Reading more digits never shrinks the value.
proof fn lemma_dec_mono(t: Seq<u8>, i: int, j: int)
    requires
        0 <= i <= j <= t.len(),
        all_digits(t),
    ensures
        dec_value(t.subrange(0, i)) <= dec_value(t.subrange(0, j)),
    decreases j - i,
{
    if i < j {
        lemma_dec_mono(t, i, j - 1);
        lemma_dec_nonneg(t, j - 1);
        assert(t.subrange(0, j).drop_last() =~= t.subrange(0, j - 1));
        assert(t.subrange(0, j).last() == t[j - 1]);
    }
}

/// Read a numeric token; `None` exactly when it spells no number the id
/// type can hold.
fn parse_usize(t: &[u8]) -> (r: Option<usize>)
    ensures
        r is Some <==> parses_as_usize(t@),
        r matches Some(n) ==> n as int == dec_value(digits_of(t@)),
{
    let start: usize = if t.len() >= 2 && t[0] == 43 {
        1
    } else {
        0
    };
    let ghost d = digits_of(t@);
    proof {
        assert(d =~= t@.subrange(start as int, t@.len() as int));
    }
    if t.len() == start {
        return None;
    }
    let mut acc: usize = 0;
    let mut i: usize = start;
    while i < t.len()
        invariant
            start <= i <= t@.len(),
            t@.len() > start,
            d == digits_of(t@),
            d =~= t@.subrange(start as int, t@.len() as int),
            forall|j: int| 0 <= j < i - start ==> is_digit(#[trigger] d[j]),
            acc as int == dec_value(d.subrange(0, i - start)),
        decreases t@.len() - i,
    {
        let ghost k = i - start;
        proof {
            assert(d[k] == t@[i as int]);
            assert(d.subrange(0, k + 1).drop_last() =~= d.subrange(0, k));
            assert(d.subrange(0, k + 1).last() == d[k]);
        }
        let b = t[i];
        if !(48 <= b && b <= 57) {
            proof {
                assert(!is_digit(d[k]));
            }
            return None;
        }
        let step = match acc.checked_mul(10) {
            Some(v) => v.checked_add((b - 48) as usize),
            None => None,
        };
        match step {
            Some(v) => {
                acc = v;
            },
            None => {
                proof {
                    assert(dec_value(d.subrange(0, k + 1)) == acc * 10 + (d[k] - 48));
                    assert(dec_value(d.subrange(0, k + 1)) > usize::MAX);
                    if all_digits(d) {
                        lemma_dec_mono(d, k + 1, d.len() as int);
                        assert(d.subrange(0, d.len() as int) =~= d);
                    }
                }
                return None;
            },
        }
        i = i + 1;
    }
    proof {
        assert(d.subrange(0, d.len() as int) =~= d);
    }
    Some(acc)
}

/// The argument tokens joined back into one text, one space between
/// neighbours.
pub open spec fn join_from(toks: Seq<Seq<u8>>, i: int) -> Seq<u8>
    decreases toks.len() - i when 0 <= i <= toks.len()
{
    if i >= toks.len() {
        seq![]
    } else if i == toks.len() - 1 {
        toks[i]
    } else {
        toks[i] + seq![32u8] + join_from(toks, i + 1)
    }
}

/// Copy a token.
fn copy_bytes(src: &[u8]) -> (r: Vec<u8>)
    ensures
        r@ == src@,
{
    let mut r: Vec<u8> = Vec::new();
    let mut i: usize = 0;
    while i < src.len()
        invariant
            i <= src@.len(),
            r@ == src@.subrange(0, i as int),
        decreases src@.len() - i,
    {
        r.push(src[i]);
        proof {
            assert(r@ =~= src@.subrange(0, i + 1 as int));
        }
        i = i + 1;
    }
    proof {
        assert(src@.subrange(0, src@.len() as int) =~= src@);
    }
    r
}

/// Join the tokens from this position on, one space between neighbours.
fn join_tokens(toks: &Vec<Vec<u8>>, i: usize) -> (r: Vec<u8>)
    requires
        i <= toks@.len(),
    ensures
        r@ == join_from(toks.deep_view(), i as int),
    decreases toks@.len() - i,
{
    proof {
        assert(toks.deep_view().len() == toks@.len());
    }
    let n = toks.len();
    if i >= n {
        Vec::new()
    } else if i == n - 1 {
        let r = copy_bytes(toks[i].as_slice());
        proof {
            assert(r@ =~= toks.deep_view()[i as int]);
        }
        r
    } else {
        let mut r = copy_bytes(toks[i].as_slice());
        r.push(32);
        let mut rest = join_tokens(toks, i + 1);
        r.append(&mut rest);
        proof {
            assert(r@ =~= join_from(toks.deep_view(), i as int));
        }
        r
    }
}

/// The command keywords, as the bytes of their names.
pub open spec fn kw_connect() -> Seq<u8> {
    "connect".spec_bytes()
}

pub open spec fn kw_c() -> Seq<u8> {
    "c".spec_bytes()
}

pub open spec fn kw_close() -> Seq<u8> {
    "close".spec_bytes()
}

pub open spec fn kw_all() -> Seq<u8> {
    "all".spec_bytes()
}

pub open spec fn kw_list() -> Seq<u8> {
    "list".spec_bytes()
}

pub open spec fn kw_ls() -> Seq<u8> {
    "ls".spec_bytes()
}

pub open spec fn kw_send() -> Seq<u8> {
    "send".spec_bytes()
}

pub open spec fn kw_s() -> Seq<u8> {
    "s".spec_bytes()
}

pub open spec fn kw_help() -> Seq<u8> {
    "help".spec_bytes()
}

pub open spec fn kw_h() -> Seq<u8> {
    "h".spec_bytes()
}

pub open spec fn kw_quit() -> Seq<u8> {
    "quit".spec_bytes()
}

pub open spec fn kw_exit() -> Seq<u8> {
    "exit".spec_bytes()
}

pub open spec fn kw_q() -> Seq<u8> {
    "q".spec_bytes()
}

/// The command a token list means. The first token is read without regard
/// to case; extra tokens after `close <id>` or `list` are ignored, as the
/// line-oriented client always did.
pub open spec fn parse_spec(toks: Seq<Seq<u8>>) -> Result<CommandModel, ParseError> {
    if toks.len() == 0 {
        Err(ParseError::Empty)
    } else {
        let head = lower_bytes(toks[0]);
        if head == kw_connect() || head == kw_c() {
            if toks.len() == 1 {
                Ok(CommandModel::Connect)
            } else if toks.len() == 2 {
                if parses_as_usize(toks[1]) {
                    Ok(CommandModel::ConnectMultiple(dec_value(digits_of(toks[1]))))
                } else {
                    Err(ParseError::InvalidCount)
                }
            } else {
                Err(ParseError::ConnectUsage)
            }
        } else if head == kw_close() {
            if toks.len() == 1 {
                Err(ParseError::CloseUsage)
            } else if lower_bytes(toks[1]) == kw_all() {
                Ok(CommandModel::CloseAll)
            } else if parses_as_usize(toks[1]) {
                Ok(CommandModel::Close(dec_value(digits_of(toks[1]))))
            } else {
                Err(ParseError::InvalidId)
            }
        } else if head == kw_list() || head == kw_ls() {
            Ok(CommandModel::List)
        } else if head == kw_send() || head == kw_s() {
            if toks.len() < 3 {
                Err(ParseError::SendUsage)
            } else if parses_as_usize(toks[1]) {
                Ok(CommandModel::Send(dec_value(digits_of(toks[1])), join_from(toks, 2)))
            } else {
                Err(ParseError::InvalidId)
            }
        } else if head == kw_help() || head == kw_h() {
            Ok(CommandModel::Help)
        } else if head == kw_quit() || head == kw_exit() || head == kw_q() {
            Ok(CommandModel::Quit)
        } else {
            Err(ParseError::Unknown)
        }
    }
}

/// Read one input line as a command.
pub fn parse_command(input: &[u8]) -> (r: Result<Command, ParseError>)
    ensures
        r matches Ok(c) ==> parse_spec(tokens_of(input@)) == Ok::<CommandModel, ParseError>(
            command_model(c),
        ),
        r matches Err(e) ==> parse_spec(tokens_of(input@)) == Err::<CommandModel, ParseError>(e),
{
    let toks = tokenize(input);
    let ghost m = toks.deep_view();
    if toks.len() == 0 {
        return Err(ParseError::Empty);
    }
    proof {
        assert(m[0] =~= toks@[0]@);
    }
    let head = to_lower(toks[0].as_slice());
    if bytes_eq(head.as_slice(), "connect".as_bytes()) || bytes_eq(
        head.as_slice(),
        "c".as_bytes(),
    ) {
        if toks.len() == 1 {
            Ok(Command::Connect)
        } else if toks.len() == 2 {
            proof {
                assert(m[1] =~= toks@[1]@);
            }
            match parse_usize(toks[1].as_slice()) {
                Some(n) => Ok(Command::ConnectMultiple(n)),
                None => Err(ParseError::InvalidCount),
            }
        } else {
            Err(ParseError::ConnectUsage)
        }
    } else if bytes_eq(head.as_slice(), "close".as_bytes()) {
        if toks.len() == 1 {
            Err(ParseError::CloseUsage)
        } else {
            proof {
                assert(m[1] =~= toks@[1]@);
            }
            let second = to_lower(toks[1].as_slice());
            if bytes_eq(second.as_slice(), "all".as_bytes()) {
                Ok(Command::CloseAll)
            } else {
                match parse_usize(toks[1].as_slice()) {
                    Some(n) => Ok(Command::Close(n)),
                    None => Err(ParseError::InvalidId),
                }
            }
        }
    } else if bytes_eq(head.as_slice(), "list".as_bytes()) || bytes_eq(
        head.as_slice(),
        "ls".as_bytes(),
    ) {
        Ok(Command::List)
    } else if bytes_eq(head.as_slice(), "send".as_bytes()) || bytes_eq(
        head.as_slice(),
        "s".as_bytes(),
    ) {
        if toks.len() < 3 {
            Err(ParseError::SendUsage)
        } else {
            proof {
                assert(m[1] =~= toks@[1]@);
            }
            match parse_usize(toks[1].as_slice()) {
                Some(n) => {
                    let msg = join_tokens(&toks, 2);
                    Ok(Command::Send(n, msg))
                },
                None => Err(ParseError::InvalidId),
            }
        }
    } else if bytes_eq(head.as_slice(), "help".as_bytes()) || bytes_eq(
        head.as_slice(),
        "h".as_bytes(),
    ) {
        Ok(Command::Help)
    } else if bytes_eq(head.as_slice(), "quit".as_bytes()) || bytes_eq(
        head.as_slice(),
        "exit".as_bytes(),
    ) || bytes_eq(head.as_slice(), "q".as_bytes()) {
        Ok(Command::Quit)
    } else {
        Err(ParseError::Unknown)
    }
}

} // verus!
