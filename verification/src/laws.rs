//! Properties of forwarding as a whole, each proved from the definitions
//! that the contracts of the library use.

use vstd::prelude::*;
use vstd::utf8::*;
use crate::error::ErrorKind;
use crate::exchange::{
    all_values_visible, collected, forwarded, planned, OutboundRequestView, RawResponseView,
    TransportOutcomeView,
};
use crate::headers::{
    distinct_names, has_name, lemma_upsert_distinct, lemma_upsert_lookup, lemma_upsert_names,
    lookup, position, upsert,
};
use crate::message::{HttpRequestView, HttpResponseView};
use crate::text::{all_visible_ascii, ascii_text, is_visible_ascii};
use crate::verb::{recognized_verb, same_letter, spells, Verb};

verus! {

/// A token spells the name of at most one verb.
pub proof fn lemma_one_spelling(token: Seq<char>, a: Verb, b: Verb)
    requires
        spells(token, a.spec_name()),
        spells(token, b.spec_name()),
    ensures
        a == b,
{
    assert(same_letter(token[0], a.spec_name()[0]));
    assert(same_letter(token[0], b.spec_name()[0]));
}

/// A method token that spells the name of a verb, in upper case, in lower
/// case or in any mix of the two, stands for that verb.
pub proof fn lemma_any_case_is_recognized(token: Seq<char>, verb: Verb)
    requires
        spells(token, verb.spec_name()),
    ensures
        recognized_verb(token) == Some(verb),
{
    lemma_one_spelling_all(token, verb);
}

proof fn lemma_one_spelling_all(token: Seq<char>, verb: Verb)
    requires
        spells(token, verb.spec_name()),
    ensures
        forall|other: Verb| spells(token, #[trigger] other.spec_name()) ==> other == verb,
{
    assert forall|other: Verb| spells(token, #[trigger] other.spec_name()) implies other
        == verb by {
        lemma_one_spelling(token, verb, other);
    }
}

/// A verb's own name stands for it.
pub proof fn lemma_name_is_recognized(verb: Verb)
    ensures
        recognized_verb(verb.spec_name()) == Some(verb),
{
    assert(spells(verb.spec_name(), verb.spec_name()));
    lemma_any_case_is_recognized(verb.spec_name(), verb);
}

/// A method token stands for no verb exactly if it spells the name of none.
pub proof fn lemma_unrecognized_spells_nothing(token: Seq<char>)
    ensures
        recognized_verb(token) is None <==> forall|verb: Verb|
            !spells(token, #[trigger] verb.spec_name()),
{
    if recognized_verb(token) is Some {
        let verb = recognized_verb(token)->0;
        assert(spells(token, verb.spec_name()));
    }
    if recognized_verb(token) is None {
        assert forall|verb: Verb| !spells(token, #[trigger] verb.spec_name()) by {
            if spells(token, verb.spec_name()) {
                lemma_any_case_is_recognized(token, verb);
            }
        }
    }
}

/// A request whose method token spells a known verb in any letter case is
/// planned with that verb, and forwarding it never fails with
/// `InvalidMethod`, whatever the transport reports.
pub proof fn lemma_known_method_is_accepted(
    request: HttpRequestView,
    verb: Verb,
    outcome: TransportOutcomeView,
)
    requires
        spells(request.method, verb.spec_name()),
    ensures
        planned(request) matches Ok(plan) && plan.verb == verb,
        forwarded(request, outcome) != Err::<HttpResponseView, ErrorKind>(
            ErrorKind::InvalidMethod,
        ),
{
    lemma_any_case_is_recognized(request.method, verb);
}

/// A request whose method token spells no known verb has no plan, so that
/// nothing is handed to the transport, and forwarding it fails with
/// `InvalidMethod` whatever the transport would have reported.
pub proof fn lemma_unknown_method_is_rejected(
    request: HttpRequestView,
    outcome: TransportOutcomeView,
)
    requires
        forall|verb: Verb| !spells(request.method, #[trigger] verb.spec_name()),
    ensures
        planned(request) == Err::<OutboundRequestView, ErrorKind>(ErrorKind::InvalidMethod),
        forwarded(request, outcome) == Err::<HttpResponseView, ErrorKind>(
            ErrorKind::InvalidMethod,
        ),
{
    lemma_unrecognized_spells_nothing(request.method);
}

/// Forwarding fails with `InvalidMethod` for no other reason than the
/// method token.
pub proof fn lemma_invalid_method_only_from_token(
    request: HttpRequestView,
    outcome: TransportOutcomeView,
)
    ensures
        forwarded(request, outcome) == Err::<HttpResponseView, ErrorKind>(ErrorKind::InvalidMethod)
            <==> recognized_verb(request.method) is None,
{
}

/// The mapping collected from raw headers lists every name once.
pub proof fn lemma_collected_distinct(raw: Seq<(Seq<char>, Seq<u8>)>)
    ensures
        distinct_names(collected(raw)),
    decreases raw.len(),
{
    if raw.len() > 0 {
        lemma_collected_distinct(raw.drop_last());
        lemma_upsert_distinct(collected(raw.drop_last()), raw.last().0, ascii_text(raw.last().1));
    }
}

/// The mapping collected from raw headers lists exactly the names that
/// occur among them.
pub proof fn lemma_collected_names(raw: Seq<(Seq<char>, Seq<u8>)>, name: Seq<char>)
    ensures
        has_name(collected(raw), name) <==> exists|i: int|
            0 <= i < raw.len() && (#[trigger] raw[i]).0 == name,
    decreases raw.len(),
{
    if raw.len() > 0 {
        let front = raw.drop_last();
        lemma_collected_names(front, name);
        lemma_upsert_names(collected(front), raw.last().0, ascii_text(raw.last().1), name);
        if has_name(collected(raw), name) {
            if name == raw.last().0 {
                assert(raw[raw.len() - 1].0 == name);
            } else {
                let i = choose|i: int| 0 <= i < front.len() && (#[trigger] front[i]).0 == name;
                assert(raw[i].0 == name);
            }
        }
        if exists|i: int| 0 <= i < raw.len() && (#[trigger] raw[i]).0 == name {
            let i = choose|i: int| 0 <= i < raw.len() && (#[trigger] raw[i]).0 == name;
            if i < front.len() {
                assert(front[i].0 == name);
            }
        }
    }
}

/// Where the transport yields a name more than once, the last of its
/// values is the one that the collected mapping holds.
pub proof fn lemma_last_value_wins(raw: Seq<(Seq<char>, Seq<u8>)>, i: int)
    requires
        0 <= i < raw.len(),
        forall|j: int| i < j < raw.len() ==> (#[trigger] raw[j]).0 != raw[i].0,
    ensures
        lookup(collected(raw), raw[i].0) == Some(ascii_text(raw[i].1)),
    decreases raw.len(),
{
    let front = raw.drop_last();
    lemma_collected_distinct(front);
    lemma_upsert_lookup(collected(front), raw.last().0, ascii_text(raw.last().1), raw[i].0);
    if i < raw.len() - 1 {
        assert(raw[raw.len() - 1].0 != raw[i].0);
        assert(front[i] == raw[i]);
        assert forall|j: int| i < j < front.len() implies (#[trigger] front[j]).0 != front[i].0 by {
            assert(raw[j].0 != raw[i].0);
        }
        lemma_last_value_wins(front, i);
    }
}

/// A character that a header value can carry as visible text.
pub open spec fn is_visible_char(c: char) -> bool {
    (' ' <= c && c <= '~') || c == '\t'
}

/// A text of visible characters only.
pub open spec fn visible_text(text: Seq<char>) -> bool {
    forall|i: int| 0 <= i < text.len() ==> is_visible_char(#[trigger] text[i])
}

/// What a transport reports that answers every request with the request's
/// own headers and body, under the given status.
pub open spec fn echoed(plan: OutboundRequestView, status: u16) -> TransportOutcomeView {
    TransportOutcomeView::Received(
        RawResponseView {
            status,
            headers: Seq::new(
                plan.headers.len(),
                |i: int| (plan.headers[i].0, encode_utf8(plan.headers[i].1)),
            ),
            body: match plan.body {
                Some(b) => encode_utf8(b),
                None => Seq::empty(),
            },
        },
    )
}

/// The response that an echoing endpoint gives to a request: the request's
/// own headers and body under the endpoint's status.
pub open spec fn own_echo(request: HttpRequestView, status: u16) -> HttpResponseView {
    HttpResponseView {
        success: true,
        status,
        body: match request.body {
            Some(b) => b,
            None => Seq::empty(),
        },
        headers: match request.headers {
            Some(h) => h,
            None => Seq::empty(),
        },
    }
}

/// A request that an echoing endpoint can answer in full: its method token
/// is recognized, its header names are distinct and its header values are
/// visible text.
pub open spec fn echoable(request: HttpRequestView) -> bool {
    &&& planned(request) is Ok
    &&& distinct_names(planned(request)->Ok_0.headers)
    &&& forall|i: int|
        0 <= i < planned(request)->Ok_0.headers.len() ==> visible_text(
            (#[trigger] planned(request)->Ok_0.headers[i]).1,
        )
}

proof fn lemma_visible_char_byte(c: char)
    requires
        is_visible_char(c),
    ensures
        is_visible_ascii(c as u8),
        (c as u8) as char == c,
        '\0' <= c && c <= '\u{7f}',
{
}

/// The bytes of a visible text are visible ASCII and decode to the text.
pub proof fn lemma_visible_text_bytes(text: Seq<char>)
    requires
        visible_text(text),
    ensures
        all_visible_ascii(encode_utf8(text)),
        ascii_text(encode_utf8(text)) == text,
{
    assert forall|i: int| 0 <= i < text.len() implies '\0' <= #[trigger] text[i] && text[i]
        <= '\u{7f}' by {
        lemma_visible_char_byte(text[i]);
    }
    assert(is_ascii_chars(text));
    is_ascii_chars_encode_utf8(text);
    let bytes = encode_utf8(text);
    assert forall|i: int| 0 <= i < bytes.len() implies is_visible_ascii(#[trigger] bytes[i]) by {
        lemma_visible_char_byte(text[i]);
        assert(bytes[i] == text[i] as u8);
    }
    assert forall|i: int| 0 <= i < text.len() implies ascii_text(bytes)[i] == text[i] by {
        lemma_visible_char_byte(text[i]);
        assert(bytes[i] == text[i] as u8);
    }
    assert(ascii_text(bytes) =~= text);
}

proof fn lemma_echo_headers(headers: Seq<(Seq<char>, Seq<char>)>, upto: int)
    requires
        distinct_names(headers),
        forall|i: int| 0 <= i < headers.len() ==> visible_text((#[trigger] headers[i]).1),
        0 <= upto <= headers.len(),
    ensures
        collected(
            Seq::new(headers.len(), |i: int| (headers[i].0, encode_utf8(headers[i].1))).take(upto),
        ) == headers.take(upto),
    decreases upto,
{
    let raw = Seq::new(headers.len(), |i: int| (headers[i].0, encode_utf8(headers[i].1)));
    if upto == 0 {
        assert(raw.take(0) =~= Seq::empty());
        assert(headers.take(0) =~= Seq::empty());
    } else {
        lemma_echo_headers(headers, upto - 1);
        let front = raw.take(upto - 1);
        assert(raw.take(upto).drop_last() =~= front);
        let last = raw.take(upto).last();
        assert(last == raw[upto - 1]);
        assert(last.0 == headers[upto - 1].0);
        assert(visible_text(headers[upto - 1].1));
        lemma_visible_text_bytes(headers[upto - 1].1);
        let before = headers.take(upto - 1);
        if has_name(before, last.0) {
            let p = position(before, last.0);
            assert(headers[p].0 == before[p].0);
            assert(headers[p].0 != headers[upto - 1].0);
        }
        assert(upsert(before, last.0, headers[upto - 1].1) =~= headers.take(upto));
    }
}

/// A round trip through a transport that echoes: when the method token is
/// recognized and the header values are visible text, the response carries
/// the request's headers and body and the status that the transport gave.
pub proof fn lemma_echo_round_trip(request: HttpRequestView, status: u16)
    requires
        echoable(request),
    ensures
        forwarded(request, echoed(planned(request)->Ok_0, status)) == Ok::<
            HttpResponseView,
            ErrorKind,
        >(own_echo(request, status)),
{
    let plan = planned(request)->Ok_0;
    let raw = echoed(plan, status)->Received_0;
    assert forall|i: int| 0 <= i < raw.headers.len() implies all_visible_ascii(
        (#[trigger] raw.headers[i]).1,
    ) by {
        assert(visible_text(plan.headers[i].1));
        lemma_visible_text_bytes(plan.headers[i].1);
    }
    lemma_echo_headers(plan.headers, plan.headers.len() as int);
    assert(raw.headers.take(plan.headers.len() as int) =~= raw.headers);
    assert(plan.headers.take(plan.headers.len() as int) =~= plan.headers);
    match plan.body {
        Some(b) => {
            encode_utf8_valid_utf8(b);
            encode_utf8_decode_utf8(b);
        },
        None => {
            assert(decode_utf8(Seq::<u8>::empty()) =~= Seq::<char>::empty());
        },
    }
}

/// Exchanges do not mix: of any number of requests, each sent to an echoing
/// endpoint of its own, every one completes with its own headers, its own
/// body and the status of its own endpoint, whatever the others carry.
pub proof fn lemma_exchanges_do_not_mix(requests: Seq<HttpRequestView>, statuses: Seq<u16>)
    requires
        statuses.len() == requests.len(),
        forall|i: int| 0 <= i < requests.len() ==> echoable(#[trigger] requests[i]),
    ensures
        forall|i: int|
            0 <= i < requests.len() ==> forwarded(
                #[trigger] requests[i],
                echoed(planned(requests[i])->Ok_0, statuses[i]),
            ) == Ok::<HttpResponseView, ErrorKind>(own_echo(requests[i], statuses[i])),
{
    assert forall|i: int| 0 <= i < requests.len() implies forwarded(
        #[trigger] requests[i],
        echoed(planned(requests[i])->Ok_0, statuses[i]),
    ) == Ok::<HttpResponseView, ErrorKind>(own_echo(requests[i], statuses[i])) by {
        assert(echoable(requests[i]));
        lemma_echo_round_trip(requests[i], statuses[i]);
    }
}

} // verus!
