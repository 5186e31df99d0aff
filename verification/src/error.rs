//! The one error type of the plugin, and the wrapping of foreign failures in
//! a line of context.
use vstd::prelude::*;
use vstd::string::*;

verus! {

/// What went wrong. `Io` and `Api` carry the text of the failure that the
/// byte stream or the host reported; `Custom` carries the plugin's own
/// message.
#[derive(Debug)]
pub enum PluginError {
    Io(String),
    Api(String),
    Custom(String),
}

/// A `PluginError` with its texts as sequences of characters.
pub enum PluginErrorView {
    Io(Seq<char>),
    Api(Seq<char>),
    Custom(Seq<char>),
}

impl View for PluginError {
    type V = PluginErrorView;

    open spec fn view(&self) -> PluginErrorView {
        match self {
            PluginError::Io(m) => PluginErrorView::Io(m@),
            PluginError::Api(m) => PluginErrorView::Api(m@),
            PluginError::Custom(m) => PluginErrorView::Custom(m@),
        }
    }
}

impl PluginErrorView {
    /// The line shown to the user: the kind of the error, then its text.
    pub open spec fn message(self) -> Seq<char> {
        match self {
            PluginErrorView::Io(m) => "IO error: "@ + m,
            PluginErrorView::Api(m) => "Neovim API error: "@ + m,
            PluginErrorView::Custom(m) => "Custom error: "@ + m,
        }
    }
}

/// The context, a colon and a space, then the failure's own text.
pub open spec fn with_context(context: Seq<char>, failure: Seq<char>) -> Seq<char> {
    context + ": "@ + failure
}

impl PluginError {
    /// A plugin-level error with the given message.
    pub fn custom(message: &str) -> (r: PluginError)
        ensures
            r@ == PluginErrorView::Custom(message@),
    {
        PluginError::Custom(message.to_owned())
    }

    /// The line shown to the user.
    pub fn message(&self) -> (r: String)
        ensures
            r@ == self@.message(),
    {
        match self {
            PluginError::Io(m) => "IO error: ".to_owned().concat(m.as_str()),
            PluginError::Api(m) => "Neovim API error: ".to_owned().concat(m.as_str()),
            PluginError::Custom(m) => "Custom error: ".to_owned().concat(m.as_str()),
        }
    }
}

/// Passes a success through, and turns a failure into a `Custom` error whose
/// message is the context, `": "` and the failure's text.
pub fn handle_error<T>(result: Result<T, String>, context: &str) -> (r: Result<T, PluginError>)
    ensures
        match result {
            Ok(v) => r == Ok::<T, PluginError>(v),
            Err(e) => r is Err && r->Err_0@ == PluginErrorView::Custom(
                with_context(context@, e@),
            ),
        },
{
    match result {
        Ok(v) => Ok(v),
        Err(e) => {
            let message = context.to_owned().concat(": ").concat(e.as_str());
            Err(PluginError::Custom(message))
        },
    }
}

} // verus!
