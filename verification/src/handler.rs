//! The failure handler: turns the diagnostics of an unhandled failure and
//! a registered configuration into the parameters of a modal alert dialog.

use vstd::prelude::*;
use vstd::string::StringExecFns;

use crate::config::ConfigView;
use crate::config::VisualPanic;
use crate::config::VisualPanicLevel;
use crate::config::resolved_icon;
use crate::config::resolved_level;
use crate::config::resolved_title;
use crate::decimal::dec_seq;
use crate::decimal::u32_to_decimal;

verus! {

/// The source position a failure was recorded at.
pub struct PanicLocation {
    pub file: String,
    pub line: u32,
    pub column: u32,
}

/// The mathematical image of a source position.
pub ghost struct LocationView {
    pub file: Seq<char>,
    pub line: u32,
    pub column: u32,
}

impl View for PanicLocation {
    type V = LocationView;

    open spec fn view(&self) -> LocationView {
        LocationView { file: self.file@, line: self.line, column: self.column }
    }
}

/// What the runtime could extract about an unhandled failure. A field is
/// `None` where the runtime could not supply it: a payload that is not a
/// string, a missing location, a missing message.
pub struct PanicDetails {
    pub payload: Option<String>,
    pub location: Option<PanicLocation>,
    pub message: Option<String>,
}

/// The mathematical image of the extracted diagnostics.
pub ghost struct DetailsView {
    pub payload: Option<Seq<char>>,
    pub location: Option<LocationView>,
    pub message: Option<Seq<char>>,
}

impl View for PanicDetails {
    type V = DetailsView;

    open spec fn view(&self) -> DetailsView {
        DetailsView {
            payload: match self.payload {
                Some(p) => Some(p@),
                None => None,
            },
            location: match self.location {
                Some(l) => Some(l@),
                None => None,
            },
            message: match self.message {
                Some(m) => Some(m@),
                None => None,
            },
        }
    }
}

/// Everything the native alert needs: title, level, icon and body text.
pub struct DialogRequest {
    pub title: String,
    pub level: VisualPanicLevel,
    pub icon: Option<String>,
    pub text: String,
}

/// The mathematical image of a dialog request.
pub ghost struct RequestView {
    pub title: Seq<char>,
    pub level: VisualPanicLevel,
    pub icon: Option<Seq<char>>,
    pub text: Seq<char>,
}

impl View for DialogRequest {
    type V = RequestView;

    open spec fn view(&self) -> RequestView {
        RequestView {
            title: self.title@,
            level: self.level,
            icon: match self.icon {
                Some(i) => Some(i@),
                None => None,
            },
            text: self.text@,
        }
    }
}

/// Why the handler itself failed: the runtime's diagnostics were not
/// displayable. The handler does not degrade gracefully on these.
#[derive(Clone, Copy, PartialEq, Eq, Structural, Debug)]
pub enum HandlerError {
    /// The failure's payload was not a string.
    PayloadNotText,
    /// The failure carried no source location.
    MissingLocation,
    /// The failure carried no message.
    MissingMessage,
}

/// The text a source position is shown as: `file:line:column`.
pub open spec fn location_text(l: LocationView) -> Seq<char> {
    l.file + ":"@ + dec_seq(l.line as nat) + ":"@ + dec_seq(l.column as nat)
}

/// The body text of the dialog: a fixed preamble, the location in
/// parentheses, the raw payload, the raw message, and a fixed notice
/// that the program will terminate.
pub open spec fn display_text(loc: Seq<char>, payload: Seq<char>, message: Seq<char>) -> Seq<
    char,
> {
    "An error occurred.\n("@ + loc + ")\n\nPayload: "@ + payload + "\n\nMessage: "@ + message
        + "\n\nThe program will terminate.\n"@
}

/// What the handler produces for given configuration and diagnostics:
/// the first missing diagnostic is reported as the handler's own error,
/// and with all of them present the dialog parameters resolve from the
/// configuration and the composed body text.
pub open spec fn handler_outcome(c: ConfigView, d: DetailsView) -> Result<
    RequestView,
    HandlerError,
> {
    match d.payload {
        None => Err(HandlerError::PayloadNotText),
        Some(payload) => match d.location {
            None => Err(HandlerError::MissingLocation),
            Some(location) => match d.message {
                None => Err(HandlerError::MissingMessage),
                Some(message) => Ok(
                    RequestView {
                        title: resolved_title(c),
                        level: resolved_level(c),
                        icon: resolved_icon(c),
                        text: display_text(location_text(location), payload, message),
                    },
                ),
            },
        },
    }
}

/// The view of a handler result.
pub open spec fn outcome_view(r: Result<DialogRequest, HandlerError>) -> Result<
    RequestView,
    HandlerError,
> {
    match r {
        Ok(q) => Ok(q@),
        Err(e) => Err(e),
    }
}

/// Renders a source position as `file:line:column`.
pub fn format_location(loc: &PanicLocation) -> (r: String)
    ensures
        r@ == location_text(loc@),
{
    let mut s = loc.file.clone();
    s.append(":");
    let line_str = u32_to_decimal(loc.line);
    s.append(line_str.as_str());
    s.append(":");
    let column_str = u32_to_decimal(loc.column);
    s.append(column_str.as_str());
    proof {
        assert(s@ =~= location_text(loc@));
    }
    s
}

/// Composes the dialog body from the location text, the raw payload and
/// the raw message.
pub fn compose_display_text(location_str: &str, payload: &str, message: &str) -> (r: String)
    ensures
        r@ == display_text(location_str@, payload@, message@),
{
    let mut s = "An error occurred.\n(".to_owned();
    s.append(location_str);
    s.append(")\n\nPayload: ");
    s.append(payload);
    s.append("\n\nMessage: ");
    s.append(message);
    s.append("\n\nThe program will terminate.\n");
    proof {
        assert(s@ =~= display_text(location_str@, payload@, message@));
    }
    s
}

/// The handler's whole computation: from the registered configuration and
/// the extracted diagnostics to the dialog parameters, or to the error
/// that made the diagnostics undisplayable.
pub fn handle_panic(config: &VisualPanic, details: &PanicDetails) -> (r: Result<
    DialogRequest,
    HandlerError,
>)
    ensures
        outcome_view(r) == handler_outcome(config@, details@),
{
    let payload: &String = match &details.payload {
        Some(p) => p,
        None => {
            return Err(HandlerError::PayloadNotText);
        },
    };
    let location: &PanicLocation = match &details.location {
        Some(l) => l,
        None => {
            return Err(HandlerError::MissingLocation);
        },
    };
    let message: &String = match &details.message {
        Some(m) => m,
        None => {
            return Err(HandlerError::MissingMessage);
        },
    };
    let location_str = format_location(location);
    let text = compose_display_text(location_str.as_str(), payload.as_str(), message.as_str());
    let title = config.resolve_title();
    let level = config.resolve_level();
    let icon = config.resolve_icon();
    Ok(DialogRequest { title, level, icon, text })
}

/// The composed dialog body contains, verbatim, the location text, the
/// raw payload and the raw message, each at a fixed position determined
/// only by the lengths of what comes before it, and so in a fixed
/// relative order: location, then payload, then message.
pub proof fn lemma_display_text_parts(loc: Seq<char>, payload: Seq<char>, message: Seq<char>)
    ensures
        ({
            let t = display_text(loc, payload, message);
            let at_loc = "An error occurred.\n("@.len() as int;
            let at_payload = at_loc + loc.len() + ")\n\nPayload: "@.len();
            let at_message = at_payload + payload.len() + "\n\nMessage: "@.len();
            &&& t.subrange(at_loc, at_loc + loc.len()) == loc
            &&& t.subrange(at_payload, at_payload + payload.len()) == payload
            &&& t.subrange(at_message, at_message + message.len()) == message
            &&& t.len() == at_message + message.len()
                + "\n\nThe program will terminate.\n"@.len()
        }),
{
    let t = display_text(loc, payload, message);
    let at_loc = "An error occurred.\n("@.len() as int;
    let at_payload = at_loc + loc.len() + ")\n\nPayload: "@.len();
    let at_message = at_payload + payload.len() + "\n\nMessage: "@.len();
    assert(t.subrange(at_loc, at_loc + loc.len()) =~= loc);
    assert(t.subrange(at_payload, at_payload + payload.len()) =~= payload);
    assert(t.subrange(at_message, at_message + message.len()) =~= message);
}

/// The handler is a function of the configuration and the diagnostics
/// alone: the same inputs compose the same outcome, byte for byte, on
/// every invocation.
pub proof fn lemma_handler_idempotent(c1: ConfigView, c2: ConfigView, d1: DetailsView, d2: DetailsView)
    requires
        c1 == c2,
        d1 == d2,
    ensures
        handler_outcome(c1, d1) == handler_outcome(c2, d2),
{
}

} // verus!
