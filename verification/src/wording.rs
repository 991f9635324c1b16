//! How texts are taken apart and put together, and how failures read.

use vstd::prelude::*;
use zbus::Error as BusError;
use crate::device::digits_value;
use crate::error::{
    decode_failure, mentions_certificate, transport_caused, transport_failure, Cause, ErrorView,
};
use crate::mechanism::{
    bus_error_message, bus_failure, call_verdict, CupsPkErrorView,
};
use crate::media::size_of;
use crate::text::{
    begins_with, decimal, decimal_int, ends_with, has_substring, stands_at,
};

verus! {

/// A text holds another exactly where it is that text with something, or
/// nothing, before it and behind it.
pub proof fn a_text_holds_its_parts(s: Seq<char>, pattern: Seq<char>)
    ensures
        has_substring(s, pattern) <==> exists|x: Seq<char>, y: Seq<char>|
            s == #[trigger] (x + pattern + y),
{
    if has_substring(s, pattern) {
        let at = choose|at: int| stands_at(s, pattern, at);
        let x = s.take(at);
        let y = s.skip(at + pattern.len());
        assert forall|i: int| 0 <= i < pattern.len() implies s[at + i] == #[trigger] pattern[i] by {
            assert(s.subrange(at, at + pattern.len())[i] == pattern[i]);
        }
        assert(s =~= x + pattern + y);
    }
    if exists|x: Seq<char>, y: Seq<char>| s == #[trigger] (x + pattern + y) {
        let (x, y) = choose|x: Seq<char>, y: Seq<char>| s == #[trigger] (x + pattern + y);
        let at = x.len() as int;
        assert(s.subrange(at, at + pattern.len()) =~= pattern);
        assert(stands_at(s, pattern, at));
    }
}

/// A text ends with another exactly where it is something, or nothing, and then
/// that text; and begins with it where it is that text first.
pub proof fn a_text_begins_and_ends_with_its_parts(s: Seq<char>, part: Seq<char>)
    ensures
        ends_with(s, part) <==> exists|x: Seq<char>| s == #[trigger] (x + part),
        begins_with(s, part) <==> exists|y: Seq<char>| s == #[trigger] (part + y),
{
    if ends_with(s, part) {
        let at = s.len() - part.len();
        assert forall|i: int| 0 <= i < part.len() implies s[at + i] == #[trigger] part[i] by {
            assert(s.subrange(at, at + part.len())[i] == part[i]);
        }
        assert(s =~= s.take(at) + part);
    }
    if exists|x: Seq<char>| s == #[trigger] (x + part) {
        let x = choose|x: Seq<char>| s == #[trigger] (x + part);
        assert(s.subrange(x.len() as int, s.len() as int) =~= part);
    }
    if begins_with(s, part) {
        assert forall|i: int| 0 <= i < part.len() implies s[i] == #[trigger] part[i] by {
            assert(s.subrange(0, part.len() as int)[i] == part[i]);
        }
        assert(s =~= part + s.skip(part.len() as int));
    }
    if exists|y: Seq<char>| s == #[trigger] (part + y) {
        let y = choose|y: Seq<char>| s == #[trigger] (part + y);
        assert(s.subrange(0, part.len() as int) =~= part);
    }
}

/// A number is written in decimal digits that stand for it, with none to spare
/// before them, and with a minus sign first where it is below zero.
pub proof fn a_number_is_written_in_decimal(n: nat)
    ensures
        digits_value(decimal(n)) == Some(n),
        decimal(n).len() > 0,
        n > 0 ==> decimal(n)[0] != '0',
        decimal_int(n as int) == decimal(n),
        n > 0 ==> decimal_int(-n) == seq!['-'] + decimal(n),
    decreases n,
{
    crate::device::lemma_digits_read_back(n);
    if n >= 10 {
        a_number_is_written_in_decimal(n / 10);
    }
}

/// Digits stand for ten times what all but the last stand for, and the last.
pub proof fn digits_are_read_from_left_to_right(s: Seq<char>, c: char)
    ensures
        digits_value(s.push(c)) is Some <==> digits_value(s) is Some && '0' <= c <= '9',
        digits_value(s.push(c)) matches Some(n) ==> n == 10 * digits_value(s)->0 + (c as int - 48),
        digits_value(Seq::empty()) == Some(0nat),
{
    let all = s.push(c);
    assert(all.drop_last() =~= s);
    assert(all.last() == c);
}

/// How each kind of error reads.
pub proof fn an_error_says_what_went_wrong(
    message: Seq<char>,
    source: Seq<Seq<char>>,
    operation: Seq<char>,
    status: Seq<char>,
    attribute: Seq<char>,
    detail: Seq<char>,
)
    ensures
        (ErrorView::Transport { message, source }).text() == "cannot reach the print service: "@
            + message,
        (ErrorView::Ipp { operation, status }).text() == "CUPS returned "@ + status + " for "@
            + operation,
        (ErrorView::Decode { attribute, detail }).text() == "cannot decode attribute "@ + attribute
            + ": "@ + detail,
        source.len() > 0 ==> ErrorView::Io(source).text() == "io error: "@ + source[0],
{
}

/// How an error reads comes first of its wordings, and then each cause
/// underneath it, outermost first.
pub proof fn causes_come_behind_the_error(
    message: Seq<char>,
    chain: Seq<Seq<char>>,
    a: Seq<char>,
    b: Seq<char>,
    i: int,
)
    ensures
        ({
            let error = ErrorView::Transport { message, source: chain };
            &&& error.wordings().len() == chain.len() + 1
            &&& error.wordings()[0] == error.text()
            &&& 0 <= i < chain.len() ==> error.wordings()[i + 1] == chain[i]
        }),
        ({
            let error = ErrorView::Io(chain);
            &&& error.wordings().len() == chain.len() + 1
            &&& error.wordings()[0] == error.text()
            &&& 0 <= i < chain.len() ==> error.wordings()[i + 1] == chain[i]
        }),
        ({
            let error = ErrorView::Ipp { operation: a, status: b };
            error.wordings() == seq![error.text()]
        }),
        ({
            let error = ErrorView::Decode { attribute: a, detail: b };
            error.wordings() == seq![error.text()]
        }),
{
}

/// The wordings of a chain of causes are that of each in turn.
pub proof fn a_chain_is_worded_link_by_link(cause: Cause)
    ensures
        cause.chain().len() > 0,
        cause.chain()[0] == cause.message@,
        cause.source is None ==> cause.chain().len() == 1,
        cause.source matches Some(inner) ==> cause.chain().drop_first() == inner.chain(),
{
    reveal_with_fuel(Cause::chain, 2);
    if let Some(inner) = cause.source {
        assert(cause.chain().drop_first() =~= inner.chain());
    }
}

/// An error is one of a certificate exactly where its own wording or that of any
/// cause underneath it speaks of one.
pub proof fn any_cause_may_speak_of_a_certificate(error: ErrorView)
    ensures
        error.speaks_of_certificate() <==> {
            ||| mentions_certificate(error.text())
            ||| error matches ErrorView::Transport { source, .. } && exists|i: int|
                0 <= i < source.len() && mentions_certificate(#[trigger] source[i])
            ||| error matches ErrorView::Io(chain) && exists|i: int|
                0 <= i < chain.len() && mentions_certificate(#[trigger] chain[i])
        },
{
    let wordings = error.wordings();
    assert(wordings[0] == error.text());
    match error {
        ErrorView::Transport { source, .. } => {
            lemma_behind(error.text(), source);
        },
        ErrorView::Io(chain) => {
            lemma_behind(error.text(), chain);
        },
        _ => {},
    }
}

proof fn lemma_behind(first: Seq<char>, rest: Seq<Seq<char>>)
    ensures
        (exists|i: int|
            0 <= i < (seq![first] + rest).len() && mentions_certificate(
                #[trigger] (seq![first] + rest)[i],
            )) <==> mentions_certificate(first) || exists|i: int|
            0 <= i < rest.len() && mentions_certificate(#[trigger] rest[i]),
{
    let all = seq![first] + rest;
    assert(all[0] == first);
    if exists|i: int| 0 <= i < rest.len() && mentions_certificate(#[trigger] rest[i]) {
        let i = choose|i: int| 0 <= i < rest.len() && mentions_certificate(#[trigger] rest[i]);
        assert(all[i + 1] == rest[i]);
    }
    if exists|i: int| 0 <= i < all.len() && mentions_certificate(#[trigger] all[i]) {
        let i = choose|i: int| 0 <= i < all.len() && mentions_certificate(#[trigger] all[i]);
        if i > 0 {
            assert(rest[i - 1] == all[i]);
        }
    }
}

/// A wording speaks of a certificate exactly where it holds the word, or the
/// name of the error that is raised for one.
pub proof fn a_certificate_is_spoken_of_by_name(x: Seq<char>, y: Seq<char>, text: Seq<char>)
    ensures
        mentions_certificate(x + "certificate"@ + y),
        mentions_certificate(x + "CertificateError"@ + y),
        mentions_certificate(text) ==> exists|x: Seq<char>, y: Seq<char>|
            text == #[trigger] (x + "certificate"@ + y) || text == x + "CertificateError"@ + y,
{
    a_text_holds_its_parts(x + "certificate"@ + y, "certificate"@);
    a_text_holds_its_parts(x + "CertificateError"@ + y, "CertificateError"@);
    a_text_holds_its_parts(text, "certificate"@);
    a_text_holds_its_parts(text, "CertificateError"@);
    if has_substring(text, "certificate"@) {
        let (x, y) = choose|x: Seq<char>, y: Seq<char>| text == #[trigger] (x + "certificate"@ + y);
        assert(text == x + "certificate"@ + y);
    } else if has_substring(text, "CertificateError"@) {
        let (x, y) = choose|x: Seq<char>, y: Seq<char>|
            text == #[trigger] (x + "CertificateError"@ + y);
        let other = x + "certificate"@ + y;
        assert(text == other || text == x + "CertificateError"@ + y);
    }
}

/// A failure to decode names the attribute and why; one of transport carries its
/// message, and the same message as its cause where it has one.
pub proof fn a_failure_carries_what_it_is_given(a: Seq<char>, b: Seq<char>)
    ensures
        decode_failure(a, b) matches ErrorView::Decode { attribute, detail } && attribute == a
            && detail == b,
        transport_failure(a) matches ErrorView::Transport { message, source } && message == a
            && source.len() == 0,
        transport_caused(a) matches ErrorView::Transport { message, source } && message == a
            && source == seq![a],
{
}

/// How each kind of the mechanism's errors reads.
pub proof fn a_mechanism_error_says_what_went_wrong(message: Seq<char>)
    ensures
        CupsPkErrorView::AuthorizationFailed.text() == "not authorized"@,
        CupsPkErrorView::Mechanism(message).text() == message,
        CupsPkErrorView::Transport(message).text() == "cannot reach cups-pk-helper: "@ + message,
{
}

/// A failure of the bus is a refusal exactly where its wording holds one of the
/// three that a refusal has, wherever in it; any other is of transport, and
/// keeps its wording.
pub proof fn a_refusal_is_told_by_its_wording(x: Seq<char>, y: Seq<char>, text: Seq<char>)
    ensures
        bus_failure(x + "NotPrivileged"@ + y) is AuthorizationFailed,
        bus_failure(x + "AccessDenied"@ + y) is AuthorizationFailed,
        bus_failure(x + "not authorized"@ + y) is AuthorizationFailed,
        bus_failure(text) is AuthorizationFailed ==> {
            ||| has_substring(text, "NotPrivileged"@)
            ||| has_substring(text, "AccessDenied"@)
            ||| has_substring(text, "not authorized"@)
        },
        !(bus_failure(text) is AuthorizationFailed) ==> bus_failure(text)
            == CupsPkErrorView::Transport(text),
{
    a_text_holds_its_parts(x + "NotPrivileged"@ + y, "NotPrivileged"@);
    a_text_holds_its_parts(x + "AccessDenied"@ + y, "AccessDenied"@);
    a_text_holds_its_parts(x + "not authorized"@ + y, "not authorized"@);
}

/// A call succeeds exactly where it was answered and its error string is empty.
/// Else an answered call fails with what the string says, and one that was not
/// with what the bus's failure means.
pub proof fn a_call_succeeds_by_an_empty_error(error: String, failure: BusError)
    ensures
        call_verdict(Ok(error)) is None <==> error@.len() == 0,
        error@.len() > 0 ==> call_verdict(Ok(error)) == Some(CupsPkErrorView::Mechanism(error@)),
        call_verdict(Err(failure)) == Some(bus_failure(bus_error_message(failure))),
{
}

/// A keyword names a size exactly where it can be put together from a class, a
/// name and dimensions, none of them empty, and the size is borderless exactly
/// where the name says so.
pub proof fn a_size_has_three_parts(keyword: Seq<char>, x: Seq<char>, y: Seq<char>)
    ensures
        size_of(keyword) matches Some(size) ==> {
            &&& size.class.len() > 0
            &&& size.name.len() > 0
            &&& size.dimensions.len() > 0
            &&& size.name == x + ".borderless"@ + y ==> size.borderless
            &&& size.borderless ==> exists|x: Seq<char>, y: Seq<char>|
                size.name == #[trigger] (x + ".borderless"@ + y)
        },
{
    if let Some(size) = size_of(keyword) {
        crate::text::lemma_position_from(keyword, '_', 0);
        crate::text::lemma_last_position(keyword, '_');
        a_text_holds_its_parts(size.name, ".borderless"@);
        if size.name == x + ".borderless"@ + y {
            assert(exists|x: Seq<char>, y: Seq<char>|
                size.name == #[trigger] (x + ".borderless"@ + y));
        }
    }
}

} // verus!
