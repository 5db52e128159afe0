//! The fixed plaintext responses written on raw, never-upgraded
//! connections: the capacity rejection and the liveness endpoint's answer.
//! The rejection names the configured capacity, and its declared content
//! length is the length of its body, by construction of the contract.

use vstd::prelude::*;

verus! {

/// The character of one decimal digit.
pub open spec fn digit_char(d: nat) -> char {
    if d == 0 {
        '0'
    } else if d == 1 {
        '1'
    } else if d == 2 {
        '2'
    } else if d == 3 {
        '3'
    } else if d == 4 {
        '4'
    } else if d == 5 {
        '5'
    } else if d == 6 {
        '6'
    } else if d == 7 {
        '7'
    } else if d == 8 {
        '8'
    } else {
        '9'
    }
}

/// The decimal spelling of a number, most significant digit first.
pub open spec fn dec_digit_chars(n: nat) -> Seq<char>
    decreases n,
{
    if n < 10 {
        seq![digit_char(n)]
    } else {
        dec_digit_chars(n / 10).push(digit_char(n % 10))
    }
}

/// A decimal spelling has at least one digit, and far fewer digits than
/// half the number's value.
proof fn lemma_dec_digit_chars_len(n: nat)
    ensures
        1 <= dec_digit_chars(n).len(),
        dec_digit_chars(n).len() <= n / 2 + 1,
    decreases n,
{
    if n >= 10 {
        lemma_dec_digit_chars_len(n / 10);
        assert((n / 10) / 2 + 1 <= n / 2) by (nonlinear_arith)
            requires
                n >= 10,
        ;
    }
}

/// One digit as text.
fn digit_string(d: usize) -> (r: String)
    requires
        d < 10,
    ensures
        r@ == seq![digit_char(d as nat)],
{
    let s: &str = if d == 0 {
        "0"
    } else if d == 1 {
        "1"
    } else if d == 2 {
        "2"
    } else if d == 3 {
        "3"
    } else if d == 4 {
        "4"
    } else if d == 5 {
        "5"
    } else if d == 6 {
        "6"
    } else if d == 7 {
        "7"
    } else if d == 8 {
        "8"
    } else {
        "9"
    };
    proof {
        reveal_strlit("0");
        reveal_strlit("1");
        reveal_strlit("2");
        reveal_strlit("3");
        reveal_strlit("4");
        reveal_strlit("5");
        reveal_strlit("6");
        reveal_strlit("7");
        reveal_strlit("8");
        reveal_strlit("9");
        assert(s@ =~= seq![digit_char(d as nat)]);
    }
    String::from_str(s)
}

/// Spell a number in decimal.
fn decimal_string(n: usize) -> (r: String)
    ensures
        r@ == dec_digit_chars(n as nat),
    decreases n,
{
    if n < 10 {
        digit_string(n)
    } else {
        let mut r = decimal_string(n / 10);
        let d = digit_string(n % 10);
        r.append(d.as_str());
        proof {
            assert(r@ =~= dec_digit_chars(n as nat));
        }
        r
    }
}

/// How many digits the decimal spelling has.
fn num_digits(n: usize) -> (c: usize)
    ensures
        c as nat == dec_digit_chars(n as nat).len(),
    decreases n,
{
    if n < 10 {
        1
    } else {
        proof {
            lemma_dec_digit_chars_len((n / 10) as nat);
        }
        1 + num_digits(n / 10)
    }
}

/// The body of the rejection response: it states the configured capacity.
pub open spec fn rejection_body(limit: nat) -> Seq<char> {
    "Maximum concurrent connections limit reached ("@ + dec_digit_chars(limit) + ")"@
}

/// The response a connection receives when admission is denied: a
/// service-unavailable status line, a content length that is exactly the
/// body's length, and a plaintext body naming the configured capacity;
/// the connection is then closed.
pub open spec fn rejection_text(limit: nat) -> Seq<char> {
    "HTTP/1.1 503 Service Unavailable\r\nContent-Type: text/plain\r\nContent-Length: "@
        + dec_digit_chars(rejection_body(limit).len()) + "\r\nConnection: close\r\n\r\n"@
        + rejection_body(limit)
}

/// The answer of the liveness endpoint: a success status line and a
/// two-byte body.
pub open spec fn health_text() -> Seq<char> {
    "HTTP/1.1 200 OK\r\nContent-Type: text/plain\r\nContent-Length: 2\r\nConnection: close\r\n\r\nOK"@
}

/// Build the rejection response sent on capacity denial.
pub fn rejection_response(limit: usize) -> (r: String)
    ensures
        r@ == rejection_text(limit as nat),
{
    let digits = decimal_string(limit);
    let nd = num_digits(limit);
    proof {
        lemma_dec_digit_chars_len(limit as nat);
        reveal_strlit("Maximum concurrent connections limit reached (");
        reveal_strlit(")");
        assert(nd + 47 <= usize::MAX) by (nonlinear_arith)
            requires
                nd <= (limit as nat) / 2 + 1,
                limit <= usize::MAX,
        ;
    }
    let body_len: usize = 47 + nd;
    proof {
        assert(rejection_body(limit as nat).len() == body_len);
    }
    let mut r = String::from_str(
        "HTTP/1.1 503 Service Unavailable\r\nContent-Type: text/plain\r\nContent-Length: ",
    );
    let len_digits = decimal_string(body_len);
    r.append(len_digits.as_str());
    r.append("\r\nConnection: close\r\n\r\n");
    r.append("Maximum concurrent connections limit reached (");
    r.append(digits.as_str());
    r.append(")");
    proof {
        assert(r@ =~= rejection_text(limit as nat));
    }
    r
}

/// Build the liveness endpoint's fixed answer.
pub fn health_response() -> (r: String)
    ensures
        r@ == health_text(),
{
    String::from_str(
        "HTTP/1.1 200 OK\r\nContent-Type: text/plain\r\nContent-Length: 2\r\nConnection: close\r\n\r\nOK",
    )
}

} // verus!
