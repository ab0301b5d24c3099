//! The command line: `<host> <port>`.
use crate::errors::Failure;
use vstd::prelude::*;

verus! {

/// Whether `c` is one of the ten decimal digits.
pub open spec fn is_digit(c: char) -> bool {
    '0' <= c <= '9'
}

/// The number that a sequence of decimal digits writes.
pub open spec fn digits_value(digits: Seq<char>) -> nat
    decreases digits.len(),
{
    if digits.len() == 0 {
        0
    } else {
        digits_value(digits.drop_last()) * 10 + (digits.last() as nat - '0' as nat) as nat
    }
}

/// The digits of a number as it is written: the text without the plus sign
/// that may stand in front.
pub open spec fn digits_of(text: Seq<char>) -> Seq<char> {
    if text.len() > 0 && text[0] == '+' {
        text.drop_first()
    } else {
        text
    }
}

/// The port that `text` writes, if it writes one: at least one decimal digit
/// and nothing else but a plus sign that may stand in front, of a value that a
/// `usize` holds.
pub open spec fn spec_port(text: Seq<char>) -> Option<usize> {
    let digits = digits_of(text);
    if digits.len() > 0 && (forall|i: int| 0 <= i < digits.len() ==> is_digit(#[trigger] digits[i]))
        && digits_value(digits) <= usize::MAX {
        Some(digits_value(digits) as usize)
    } else {
        None
    }
}

/// The host and the port that the command line names.
#[derive(Debug, PartialEq, Eq)]
pub struct Target {
    /// The host, as it was written.
    pub host: String,
    /// The port.
    pub port: usize,
}

proof fn value_of_prefix_is_no_larger(digits: Seq<char>, count: int)
    requires
        0 <= count <= digits.len(),
    ensures
        digits_value(digits.take(count)) <= digits_value(digits),
    decreases digits.len(),
{
    if count == digits.len() {
        assert(digits.take(count) =~= digits);
    } else {
        value_of_prefix_is_no_larger(digits.drop_last(), count);
        assert(digits.drop_last().take(count) =~= digits.take(count));
    }
}

/// The port that `port_string` writes, or the usage error if it writes none.
pub fn port_from_string(port_string: &String) -> (result: Result<usize, Failure>)
    ensures
        match spec_port(port_string@) {
            Some(port) => result == Ok::<usize, Failure>(port),
            None => result == Err::<usize, Failure>(Failure::Usage),
        },
{
    let text = port_string.as_str();
    if !text.is_ascii() {
        proof {
            let digits = digits_of(text@);
            let at = choose|i: int| 0 <= i < text@.len() && !('\0' <= #[trigger] text@[i] <= '\u{7f}');
            if digits.len() == text@.len() {
                assert(!is_digit(digits[at]));
            } else if at > 0 {
                assert(!is_digit(digits[at - 1]));
            }
        }
        return Err(Failure::Usage);
    }
    let len = text.unicode_len();
    let first: usize = if len > 0 && text.get_ascii(0) == 43u8 {
        1
    } else {
        0
    };
    let ghost digits = digits_of(text@);
    assert(digits =~= text@.skip(first as int));
    if first == len {
        return Err(Failure::Usage);
    }
    let mut value: usize = 0;
    let mut index: usize = first;
    while index < len
        invariant
            first <= index <= len,
            first < len,
            len == text@.len(),
            text@ == port_string@,
            digits == digits_of(port_string@),
            vstd::string::is_ascii(text),
            digits == text@.skip(first as int),
            value == digits_value(digits.take(index - first)),
            forall|i: int| 0 <= i < index - first ==> is_digit(#[trigger] digits[i]),
        decreases len - index,
    {
        let byte = text.get_ascii(index);
        let ghost seen = digits.take(index - first + 1);
        proof {
            assert(digits[index - first] == text@[index as int]);
            assert(seen.drop_last() =~= digits.take(index - first));
            assert(seen.last() == digits[index - first]);
            value_of_prefix_is_no_larger(digits, index - first + 1);
        }
        if byte < 48u8 || byte > 57u8 {
            assert(!is_digit(digits[index - first]));
            return Err(Failure::Usage);
        }
        let digit: usize = (byte - 48u8) as usize;
        assert(digit == (seen.last() as nat - '0' as nat) as nat);
        let next = match value.checked_mul(10) {
            Some(tenfold) => tenfold.checked_add(digit),
            None => None,
        };
        match next {
            Some(sum) => {
                value = sum;
            },
            None => {
                return Err(Failure::Usage);
            },
        }
        index += 1;
    }
    assert(digits.take(index - first) =~= digits);
    Ok(value)
}

/// The host and the port that the arguments name.  `arguments` holds the
/// program's own name and then what was written after it.  Anything but
/// exactly two arguments after the name, or a port that is no number, is the
/// usage error.
pub fn target_from_arguments(arguments: &Vec<String>) -> (result: Result<Target, Failure>)
    ensures
        arguments.len() != 3 ==> result == Err::<Target, Failure>(Failure::Usage),
        arguments.len() == 3 ==> match spec_port(arguments[2]@) {
            Some(port) => result matches Ok(target) && target.host@ == arguments[1]@ && target.port
                == port,
            None => result == Err::<Target, Failure>(Failure::Usage),
        },
{
    if arguments.len() != 3 {
        return Err(Failure::Usage);
    }
    match port_from_string(&arguments[2]) {
        Ok(port) => Ok(Target { host: arguments[1].clone(), port }),
        Err(_) => Err(Failure::Usage),
    }
}

/// The address to connect to: the first that the lookup of `host` found.  A
/// lookup that failed or found nothing is the error that names the host.
pub fn first_address<A, E>(host: &String, lookup: Result<Vec<A>, E>) -> (result: Result<
    A,
    Failure,
>)
    ensures
        match lookup {
            Ok(found) if found@.len() > 0 => result == Ok::<A, Failure>(found@[0]),
            _ => result matches Err(Failure::UnresolvedHost(named)) && named@ == host@,
        },
{
    match lookup {
        Ok(mut found) => {
            if found.len() > 0 {
                Ok(found.remove(0))
            } else {
                Err(Failure::UnresolvedHost(host.clone()))
            }
        },
        Err(_) => Err(Failure::UnresolvedHost(host.clone())),
    }
}

} // verus!
