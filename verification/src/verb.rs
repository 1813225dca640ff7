//! HTTP verbs and the recognition of method tokens.

use vstd::prelude::*;
use vstd::utf8::*;
use vstd::string::*;
use reqwest::Method;
use crate::text::ascii_text;

verus! {

/// The HTTP verbs that the transport knows by name.
#[derive(Clone, Copy, Debug, PartialEq, Eq, Structural)]
pub enum Verb {
    Options,
    Get,
    Post,
    Put,
    Delete,
    Head,
    Trace,
    Connect,
    Patch,
    Query,
}

impl Verb {
    /// The verb's name as it is written on the wire, in upper case.
    pub open spec fn spec_name(self) -> Seq<char> {
        match self {
            Verb::Options => seq!['O', 'P', 'T', 'I', 'O', 'N', 'S'],
            Verb::Get => seq!['G', 'E', 'T'],
            Verb::Post => seq!['P', 'O', 'S', 'T'],
            Verb::Put => seq!['P', 'U', 'T'],
            Verb::Delete => seq!['D', 'E', 'L', 'E', 'T', 'E'],
            Verb::Head => seq!['H', 'E', 'A', 'D'],
            Verb::Trace => seq!['T', 'R', 'A', 'C', 'E'],
            Verb::Connect => seq!['C', 'O', 'N', 'N', 'E', 'C', 'T'],
            Verb::Patch => seq!['P', 'A', 'T', 'C', 'H'],
            Verb::Query => seq!['Q', 'U', 'E', 'R', 'Y'],
        }
    }

    /// The verb whose wire name is exactly `token`, if there is one.
    pub open spec fn named(token: Seq<char>) -> Option<Verb> {
        if token =~= Verb::Options.spec_name() {
            Some(Verb::Options)
        } else if token =~= Verb::Get.spec_name() {
            Some(Verb::Get)
        } else if token =~= Verb::Post.spec_name() {
            Some(Verb::Post)
        } else if token =~= Verb::Put.spec_name() {
            Some(Verb::Put)
        } else if token =~= Verb::Delete.spec_name() {
            Some(Verb::Delete)
        } else if token =~= Verb::Head.spec_name() {
            Some(Verb::Head)
        } else if token =~= Verb::Trace.spec_name() {
            Some(Verb::Trace)
        } else if token =~= Verb::Connect.spec_name() {
            Some(Verb::Connect)
        } else if token =~= Verb::Patch.spec_name() {
            Some(Verb::Patch)
        } else if token =~= Verb::Query.spec_name() {
            Some(Verb::Query)
        } else {
            None
        }
    }

    /// The verb's name as it is written on the wire.
    pub fn name(&self) -> (text: &'static str)
        ensures
            text@ == self.spec_name(),
    {
        proof {
            reveal_strlit("OPTIONS");
            reveal_strlit("GET");
            reveal_strlit("POST");
            reveal_strlit("PUT");
            reveal_strlit("DELETE");
            reveal_strlit("HEAD");
            reveal_strlit("TRACE");
            reveal_strlit("CONNECT");
            reveal_strlit("PATCH");
            reveal_strlit("QUERY");
        }
        let text = match self {
            Verb::Options => "OPTIONS",
            Verb::Get => "GET",
            Verb::Post => "POST",
            Verb::Put => "PUT",
            Verb::Delete => "DELETE",
            Verb::Head => "HEAD",
            Verb::Trace => "TRACE",
            Verb::Connect => "CONNECT",
            Verb::Patch => "PATCH",
            Verb::Query => "QUERY",
        };
        assert(text@ =~= self.spec_name());
        text
    }
}

/// `c` is the upper-case letter `upper` or its lower-case form.
pub open spec fn same_letter(c: char, upper: char) -> bool {
    c == upper || ('A' <= upper && upper <= 'Z' && c as u32 == upper as u32 + 32)
}

/// `token` spells `name` when the case of ASCII letters is ignored.
pub open spec fn spells(token: Seq<char>, name: Seq<char>) -> bool {
    &&& token.len() == name.len()
    &&& forall|i: int| 0 <= i < name.len() ==> #[trigger] same_letter(token[i], name[i])
}

/// The verb that a method token stands for: the one whose name the token
/// spells in any mix of upper and lower case. Tokens that spell no known
/// verb stand for none.
pub open spec fn recognized_verb(token: Seq<char>) -> Option<Verb> {
    if spells(token, Verb::Options.spec_name()) {
        Some(Verb::Options)
    } else if spells(token, Verb::Get.spec_name()) {
        Some(Verb::Get)
    } else if spells(token, Verb::Post.spec_name()) {
        Some(Verb::Post)
    } else if spells(token, Verb::Put.spec_name()) {
        Some(Verb::Put)
    } else if spells(token, Verb::Delete.spec_name()) {
        Some(Verb::Delete)
    } else if spells(token, Verb::Head.spec_name()) {
        Some(Verb::Head)
    } else if spells(token, Verb::Trace.spec_name()) {
        Some(Verb::Trace)
    } else if spells(token, Verb::Connect.spec_name()) {
        Some(Verb::Connect)
    } else if spells(token, Verb::Patch.spec_name()) {
        Some(Verb::Patch)
    } else if spells(token, Verb::Query.spec_name()) {
        Some(Verb::Query)
    } else {
        None
    }
}

/// The upper-case form of an ASCII letter; any other byte is left as it is.
spec fn upper_byte(b: u8) -> u8 {
    if 97 <= b && b <= 122 {
        (b - 32) as u8
    } else {
        b
    }
}

/// Every character of the sequence is an upper-case ASCII letter.
spec fn all_upper(name: Seq<char>) -> bool {
    forall|i: int| 0 <= i < name.len() ==> 'A' <= #[trigger] name[i] && name[i] <= 'Z'
}

proof fn lemma_names_are_upper(verb: Verb)
    ensures
        all_upper(verb.spec_name()),
{
}

/// Either form of an upper-case ASCII letter is an ASCII character.
proof fn lemma_letter_is_ascii(c: char, upper: char)
    requires
        'A' <= upper && upper <= 'Z',
        same_letter(c, upper),
    ensures
        '\0' <= c && c <= '\u{7f}',
{
}

/// A token that spells an upper-case name holds ASCII letters only.
proof fn lemma_spelling_is_ascii(token: Seq<char>, name: Seq<char>)
    requires
        all_upper(name),
        spells(token, name),
    ensures
        is_ascii_chars(token),
{
    assert forall|i: int| 0 <= i < token.len() implies '\0' <= #[trigger] token[i] && token[i]
        <= '\u{7f}' by {
        lemma_letter_is_ascii(token[i], name[i]);
    }
}

/// Folding an ASCII token to upper case gives exactly `name` if and only if
/// the token spells `name`.
proof fn lemma_folded_token(token: Seq<char>, folded: Seq<u8>, name: Seq<char>)
    requires
        is_ascii_chars(token),
        folded.len() == token.len(),
        forall|i: int| 0 <= i < token.len() ==> folded[i] == upper_byte(token[i] as u8),
        all_upper(name),
    ensures
        (ascii_text(folded) =~= name) <==> spells(token, name),
{
    if ascii_text(folded) =~= name {
        assert forall|i: int| 0 <= i < name.len() implies #[trigger] same_letter(
            token[i],
            name[i],
        ) by {
            assert(ascii_text(folded)[i] == name[i]);
            assert('A' <= name[i] && name[i] <= 'Z');
            assert('\0' <= token[i] && token[i] <= '\u{7f}');
        }
    }
    if spells(token, name) {
        assert forall|i: int| 0 <= i < name.len() implies ascii_text(folded)[i] == name[i] by {
            assert(same_letter(token[i], name[i]));
            assert('A' <= name[i] && name[i] <= 'Z');
            assert('\0' <= token[i] && token[i] <= '\u{7f}');
        }
    }
}

/// `reqwest::Method::from_bytes` (the `Method` of the `http` crate, which
/// `reqwest` hands on), reduced to the verbs it knows by name: the result is
/// the verb whose upper-case name the bytes are, and none for any other
/// token, whether the transport would carry it as an extension method or
/// refuse it.
#[verifier::external_body]
fn named_method(token: &[u8]) -> (verb: Option<Verb>)
    ensures
        verb == Verb::named(ascii_text(token@)),
{
    match Method::from_bytes(token) {
        Ok(Method::OPTIONS) => Some(Verb::Options),
        Ok(Method::GET) => Some(Verb::Get),
        Ok(Method::POST) => Some(Verb::Post),
        Ok(Method::PUT) => Some(Verb::Put),
        Ok(Method::DELETE) => Some(Verb::Delete),
        Ok(Method::HEAD) => Some(Verb::Head),
        Ok(Method::TRACE) => Some(Verb::Trace),
        Ok(Method::CONNECT) => Some(Verb::Connect),
        Ok(Method::PATCH) => Some(Verb::Patch),
        Ok(Method::QUERY) => Some(Verb::Query),
        _ => None,
    }
}

/// Resolves a method token to the verb it stands for, ignoring the case of
/// its letters.
pub fn resolve(token: &str) -> (verb: Option<Verb>)
    ensures
        verb == recognized_verb(token@),
{
    if !token.is_ascii() {
        proof {
            lemma_unrecognized_unless_ascii(token@);
        }
        return None;
    }
    let bytes = token.as_bytes();
    proof {
        is_ascii_chars_encode_utf8(token@);
    }
    let mut folded: Vec<u8> = Vec::new();
    let mut i: usize = 0;
    while i < bytes.len()
        invariant
            i <= bytes.len(),
            folded@.len() == i,
            forall|j: int| 0 <= j < i ==> folded@[j] == upper_byte(#[trigger] bytes@[j]),
        decreases bytes.len() - i,
    {
        let b: u8 = bytes[i];
        let u: u8 = if 97 <= b && b <= 122 {
            b - 32
        } else {
            b
        };
        folded.push(u);
        i += 1;
    }
    let verb = named_method(folded.as_slice());
    proof {
        lemma_folded_recognition(token@, folded@);
    }
    verb
}

proof fn lemma_unrecognized_unless_ascii(token: Seq<char>)
    requires
        !is_ascii_chars(token),
    ensures
        recognized_verb(token) is None,
{
    if recognized_verb(token) is Some {
        let verb = recognized_verb(token)->0;
        lemma_names_are_upper(verb);
        lemma_spelling_is_ascii(token, verb.spec_name());
    }
}

proof fn lemma_folded_recognition(token: Seq<char>, folded: Seq<u8>)
    requires
        is_ascii_chars(token),
        folded.len() == token.len(),
        forall|i: int| 0 <= i < token.len() ==> folded[i] == upper_byte(token[i] as u8),
    ensures
        Verb::named(ascii_text(folded)) == recognized_verb(token),
{
    lemma_names_are_upper(Verb::Options);
    lemma_names_are_upper(Verb::Get);
    lemma_names_are_upper(Verb::Post);
    lemma_names_are_upper(Verb::Put);
    lemma_names_are_upper(Verb::Delete);
    lemma_names_are_upper(Verb::Head);
    lemma_names_are_upper(Verb::Trace);
    lemma_names_are_upper(Verb::Connect);
    lemma_names_are_upper(Verb::Patch);
    lemma_names_are_upper(Verb::Query);
    lemma_folded_token(token, folded, Verb::Options.spec_name());
    lemma_folded_token(token, folded, Verb::Get.spec_name());
    lemma_folded_token(token, folded, Verb::Post.spec_name());
    lemma_folded_token(token, folded, Verb::Put.spec_name());
    lemma_folded_token(token, folded, Verb::Delete.spec_name());
    lemma_folded_token(token, folded, Verb::Head.spec_name());
    lemma_folded_token(token, folded, Verb::Trace.spec_name());
    lemma_folded_token(token, folded, Verb::Connect.spec_name());
    lemma_folded_token(token, folded, Verb::Patch.spec_name());
    lemma_folded_token(token, folded, Verb::Query.spec_name());
}

} // verus!
