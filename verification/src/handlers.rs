//! The desktop's handlers of the `afirma://` scheme: the words the window
//! knows their situations by.
use vstd::prelude::*;

verus! {

/// The scheme the application handles.
pub const SCHEME: &'static str = "afirma";

/// What the desktop answered about the handlers of the scheme.
#[derive(Clone, Copy, Debug, PartialEq, Eq, Structural)]
pub enum HandlerSituation {
    NotAvailableInsideTheSandbox,
    TheListIsNotReadable,
    TheListIsNotWritable,
}

/// The key of the catalogue of the window for each situation.
pub open spec fn handler_situation_key(situation: HandlerSituation) -> Seq<char> {
    match situation {
        HandlerSituation::NotAvailableInsideTheSandbox => "handlerNotAvailable"@,
        HandlerSituation::TheListIsNotReadable => "handlerListUnreadable"@,
        HandlerSituation::TheListIsNotWritable => "handlerListUnwritable"@,
    }
}

/// A handler the desktop knows for the scheme: its id and its name.
#[derive(Clone, Debug, PartialEq, Eq)]
pub struct UrlHandlerView {
    pub id: String,
    pub name: String,
}

/// The handlers of the scheme as the window is told of them.
#[derive(Clone, Debug)]
pub struct UrlHandlersView {
    /// Whether the desktop could be asked at all.
    pub available: bool,
    pub handlers: Vec<UrlHandlerView>,
    /// The handler the desktop uses now, if it says.
    pub current: Option<String>,
    /// The desktop file of this application.
    pub ours: String,
}

/// What the desktop answered when asked for the handlers of the scheme.
#[derive(Clone, Debug)]
pub enum RegisteredHandlers {
    NotAvailableInsideTheSandbox,
    /// The handlers known, each by its id and its name.
    Known(Vec<(String, String)>),
}

/// Which handlers the window is told of: none, and nothing current, where
/// the desktop cannot be asked; otherwise every handler known, in order,
/// and the current default, which `current` is asked only then.
pub fn who_handles<F>(registered: RegisteredHandlers, current: F, ours: &str) -> (v: UrlHandlersView) where
    F: FnOnce() -> Option<String>,

    requires
        current.requires(()),
    ensures
        v.ours@ == ours@,
        match registered {
            RegisteredHandlers::NotAvailableInsideTheSandbox => !v.available && v.handlers@.len() == 0
                && v.current is None,
            RegisteredHandlers::Known(known) => {
                &&& v.available
                &&& v.handlers@.len() == known@.len()
                &&& forall|k: int|
                    0 <= k < known@.len() ==> (#[trigger] v.handlers@[k]).id@ == known@[k].0@
                        && v.handlers@[k].name@ == known@[k].1@
                &&& current.ensures((), v.current)
            },
        },
{
    match registered {
        RegisteredHandlers::NotAvailableInsideTheSandbox => UrlHandlersView {
            available: false,
            handlers: Vec::new(),
            current: None,
            ours: ours.to_owned(),
        },
        RegisteredHandlers::Known(known) => {
            let mut handlers: Vec<UrlHandlerView> = Vec::new();
            let mut k: usize = 0;
            while k < known.len()
                invariant
                    0 <= k <= known@.len(),
                    handlers@.len() == k,
                    forall|j: int|
                        0 <= j < k ==> (#[trigger] handlers@[j]).id@ == known@[j].0@ && handlers@[j].name@
                            == known@[j].1@,
                decreases known.len() - k,
            {
                handlers.push(UrlHandlerView { id: known[k].0.clone(), name: known[k].1.clone() });
                k = k + 1;
            }
            let now = current();
            UrlHandlersView { available: true, handlers, current: now, ours: ours.to_owned() }
        },
    }
}

pub fn situation_name(situation: HandlerSituation) -> (name: &'static str)
    ensures
        name@ == handler_situation_key(situation),
{
    match situation {
        HandlerSituation::NotAvailableInsideTheSandbox => "handlerNotAvailable",
        HandlerSituation::TheListIsNotReadable => "handlerListUnreadable",
        HandlerSituation::TheListIsNotWritable => "handlerListUnwritable",
    }
}

} // verus!
