use vstd::prelude::*;
use vstd::string::*;

use crate::js_value::JSValue;
use crate::protocol::{usage_text, Failure, InvalidUsage};

verus! {

/// Where an exception came from.
#[derive(Clone, Copy, Debug, PartialEq, Eq, Structural)]
pub enum ExceptionKind {
    /// The engine threw a value.
    Engine,
    /// The engine refused an operation without throwing.
    InvalidUsage,
    /// The host raised it with a message of its own.
    Host,
}

/// What an exception holds.
pub enum ExceptionBodyView {
    Thrown(JSValue),
    ThrownWithRepresentation(JSValue, Seq<char>),
    Message(Seq<char>),
    /// A misuse, with the text of the object it concerns where known.
    Usage(InvalidUsage, Option<Seq<char>>),
}

/// An exception as a mathematical value.
pub struct ExceptionView {
    pub body: ExceptionBodyView,
    pub location: Seq<char>,
}

/// A value to hand back to the engine for an exception: the thrown value
/// itself, or a string value that the host makes from this text.
#[derive(Debug, Clone, PartialEq, Eq)]
pub enum Reinjection {
    Value(JSValue),
    Text(String),
}

#[derive(Debug, Clone, PartialEq, Eq)]
enum JSExceptionBody {
    JSValue(JSValue),
    JSValueWithRepresentation(JSValue, String),
    String(String),
    Usage(InvalidUsage, Option<String>),
}

/// A JavaScript exception: a thrown value with the text it had when it was
/// caught, a misuse reported by the engine, or a message of the host; each
/// with the place in the host where it was raised.
#[derive(Debug, Clone, PartialEq, Eq)]
pub struct JSException {
    body: JSExceptionBody,
    location: String,
}

impl View for JSException {
    type V = ExceptionView;

    closed spec fn view(&self) -> ExceptionView {
        ExceptionView {
            body: match self.body {
                JSExceptionBody::JSValue(v) => ExceptionBodyView::Thrown(v),
                JSExceptionBody::JSValueWithRepresentation(v, s) => ExceptionBodyView::ThrownWithRepresentation(v, s@),
                JSExceptionBody::String(s) => ExceptionBodyView::Message(s@),
                JSExceptionBody::Usage(u, d) => ExceptionBodyView::Usage(u, texts_of(d)),
            },
            location: self.location@,
        }
    }
}

/// The kind of an exception.
pub open spec fn kind_of(e: ExceptionView) -> ExceptionKind {
    match e.body {
        ExceptionBodyView::Thrown(_) => ExceptionKind::Engine,
        ExceptionBodyView::ThrownWithRepresentation(_, _) => ExceptionKind::Engine,
        ExceptionBodyView::Message(_) => ExceptionKind::Host,
        ExceptionBodyView::Usage(_, _) => ExceptionKind::InvalidUsage,
    }
}

/// The body that capturing `value` yields, given the outcome of turning it
/// into text at the moment of the throw.
pub open spec fn captured_body(value: JSValue, representation: Option<Seq<char>>) -> ExceptionBodyView {
    match representation {
        Some(s) => ExceptionBodyView::ThrownWithRepresentation(value, s),
        None => ExceptionBodyView::Thrown(value),
    }
}

/// The text inside an optional string.
pub open spec fn texts_of(o: Option<String>) -> Option<Seq<char>> {
    match o {
        Some(s) => Some(s@),
        None => None,
    }
}

/// The message of a misuse: a call or construction names the object it
/// concerns where its text is known; otherwise the misuse's own text.
pub open spec fn usage_message(u: InvalidUsage, subject: Option<Seq<char>>) -> Seq<char> {
    match (u, subject) {
        (InvalidUsage::NotAFunction, Some(d)) => "Can't call the object "@ + d + ": not a valid function"@,
        (InvalidUsage::NotAConstructor, Some(d)) => "Can't call constructor for "@ + d
            + ": not a valid constructor"@,
        _ => usage_text(u),
    }
}

fn usage_message_text(u: InvalidUsage, subject: &Option<String>) -> (r: String)
    ensures
        r@ == usage_message(u, texts_of(*subject)),
{
    match (u, subject) {
        (InvalidUsage::NotAFunction, Some(d)) => {
            let mut s = String::from_str("Can't call the object ");
            s.append(d.as_str());
            s.append(": not a valid function");
            s
        },
        (InvalidUsage::NotAConstructor, Some(d)) => {
            let mut s = String::from_str("Can't call constructor for ");
            s.append(d.as_str());
            s.append(": not a valid constructor");
            s
        },
        _ => u.message(),
    }
}

/// Lower-case hexadecimal digits.
pub open spec fn hex_alphabet() -> Seq<char> {
    seq!['0', '1', '2', '3', '4', '5', '6', '7', '8', '9', 'a', 'b', 'c', 'd', 'e', 'f']
}

/// `n` in lower-case hexadecimal, without leading zeros.
pub open spec fn hex_digits(n: nat) -> Seq<char>
    decreases n,
{
    if n < 16 {
        seq![hex_alphabet()[n as int]]
    } else {
        hex_digits(n / 16).push(hex_alphabet()[(n % 16) as int])
    }
}

/// The message part of an exception's display form.
pub open spec fn message_text(body: ExceptionBodyView) -> Seq<char> {
    match body {
        ExceptionBodyView::Thrown(v) => "<error is not representable. JSValueRef=0x"@ + hex_digits(
            v.inner as nat,
        ) + ">"@,
        ExceptionBodyView::ThrownWithRepresentation(_, s) => s,
        ExceptionBodyView::Message(s) => s,
        ExceptionBodyView::Usage(u, d) => usage_message(u, d),
    }
}

/// Whether `r` is what to hand back to the engine for `e`: the thrown value,
/// or else the message as text.
pub open spec fn reinjects(r: Reinjection, e: ExceptionView) -> bool {
    match e.body {
        ExceptionBodyView::Thrown(v) => r == Reinjection::Value(v),
        ExceptionBodyView::ThrownWithRepresentation(v, _) => r == Reinjection::Value(v),
        ExceptionBodyView::Message(s) => r matches Reinjection::Text(t) && t@ == s,
        ExceptionBodyView::Usage(u, d) => r matches Reinjection::Text(t) && t@ == usage_message(u, d),
    }
}

/// The display form: where it was raised, then the message.
pub open spec fn display_text(e: ExceptionView) -> Seq<char> {
    "JSException "@ + e.location + ": "@ + message_text(e.body)
}

fn hex_digit_text(d: usize) -> (r: &'static str)
    requires
        d < 16,
    ensures
        r@ == seq![hex_alphabet()[d as int]],
{
    let alphabet = "0123456789abcdef";
    proof {
        reveal_strlit("0123456789abcdef");
        assert(alphabet@ =~= hex_alphabet());
    }
    alphabet.substring_ascii(d, d + 1)
}

fn hex_text(n: usize) -> (r: String)
    ensures
        r@ == hex_digits(n as nat),
    decreases n,
{
    if n < 16 {
        String::from_str(hex_digit_text(n))
    } else {
        let mut s = hex_text(n / 16);
        s.append(hex_digit_text(n % 16));
        s
    }
}

impl JSException {
    /// Captures a thrown value. `representation` is what turning the value
    /// into text gave at the moment of the throw, or `None` where that failed;
    /// it is kept as it was then.
    pub fn new(value: JSValue, representation: Option<String>, location: String) -> (r: JSException)
        ensures
            r@.body == captured_body(value, texts_of(representation)),
            r@.location == location@,
    {
        let body = match representation {
            Some(s) => JSExceptionBody::JSValueWithRepresentation(value, s),
            None => JSExceptionBody::JSValue(value),
        };
        JSException { body, location }
    }

    /// An exception raised by the host with a message of its own.
    pub fn from_text(message: String, location: String) -> (r: JSException)
        ensures
            r@.body == ExceptionBodyView::Message(message@),
            r@.location == location@,
    {
        JSException { body: JSExceptionBody::String(message), location }
    }

    /// The exception for a failed engine operation: a thrown value is
    /// captured with `representation`, its text at the moment of the throw;
    /// a misuse keeps its own kind, and `representation` is then the text of
    /// the object it concerns, if known.
    pub fn from_failure(failure: Failure, representation: Option<String>, location: String) -> (r: JSException)
        ensures
            r@.location == location@,
            r@.body == match failure {
                Failure::Thrown(v) => captured_body(v, texts_of(representation)),
                Failure::Invalid(u) => ExceptionBodyView::Usage(u, texts_of(representation)),
            },
    {
        match failure {
            Failure::Thrown(v) => JSException::new(v, representation, location),
            Failure::Invalid(u) => JSException { body: JSExceptionBody::Usage(u, representation), location },
        }
    }

    /// Where this exception came from.
    pub fn kind(&self) -> (r: ExceptionKind)
        ensures
            r == kind_of(self@),
    {
        match &self.body {
            JSExceptionBody::JSValue(_) => ExceptionKind::Engine,
            JSExceptionBody::JSValueWithRepresentation(_, _) => ExceptionKind::Engine,
            JSExceptionBody::String(_) => ExceptionKind::Host,
            JSExceptionBody::Usage(_, _) => ExceptionKind::InvalidUsage,
        }
    }

    /// What to hand back to the engine for this exception, e.g. as the reason
    /// of a rejected promise: the thrown value, or the message as text.
    pub fn to_jsvalue(&self) -> (r: Reinjection)
        ensures
            reinjects(r, self@),
    {
        match &self.body {
            JSExceptionBody::JSValue(v) => Reinjection::Value(*v),
            JSExceptionBody::JSValueWithRepresentation(v, _) => Reinjection::Value(*v),
            JSExceptionBody::String(s) => Reinjection::Text(s.clone()),
            JSExceptionBody::Usage(u, d) => Reinjection::Text(usage_message_text(*u, d)),
        }
    }

    /// The display form: `JSException <location>: <message>`, with a
    /// placeholder naming the value's address where no text was available.
    pub fn to_string(&self) -> (r: String)
        ensures
            r@ == display_text(self@),
    {
        let mut s = String::from_str("JSException ");
        s.append(self.location.as_str());
        s.append(": ");
        match &self.body {
            JSExceptionBody::JSValue(v) => {
                s.append("<error is not representable. JSValueRef=0x");
                let h = hex_text(v.inner);
                s.append(h.as_str());
                s.append(">");
            },
            JSExceptionBody::JSValueWithRepresentation(_, m) => {
                s.append(m.as_str());
            },
            JSExceptionBody::String(m) => {
                s.append(m.as_str());
            },
            JSExceptionBody::Usage(u, d) => {
                let m = usage_message_text(*u, d);
                s.append(m.as_str());
            },
        }
        s
    }
}

/// The display form of an exception ends with its message; for a value
/// captured with a text, that text.
pub proof fn lemma_display_ends_with_message(e: ExceptionView)
    ensures
        ({
            let d = display_text(e);
            let m = message_text(e.body);
            &&& d.len() >= m.len()
            &&& d.subrange(d.len() - m.len(), d.len() as int) == m
        }),
        e.body matches ExceptionBodyView::ThrownWithRepresentation(_, s) ==> message_text(e.body) == s,
{
    let d = display_text(e);
    let m = message_text(e.body);
    let p = "JSException "@ + e.location + ": "@;
    assert(d == p + m);
    assert(d.subrange(d.len() - m.len(), d.len() as int) =~= m);
}

} // verus!
