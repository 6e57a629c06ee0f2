//! The two files of the application, as the library sees them: the
//! configuration the person chose and the state it accumulated.
use vstd::prelude::*;

use crate::configuration::{destination_view, Configuration, Language, Theme};
use crate::recents::{tray_view, RecentDocument, RecentView};
use crate::token::{CertificateRef, ReferenceView};

verus! {

/// A configuration as a plain value.
pub struct ConfigurationV {
    pub language: Language,
    pub destination: Option<Seq<char>>,
    pub remember_visible_signature: bool,
    pub remember_activity: bool,
    pub theme: Theme,
}

pub open spec fn configuration_view(c: Configuration) -> ConfigurationV {
    ConfigurationV {
        language: c.language,
        destination: destination_view(c),
        remember_visible_signature: c.remember_visible_signature,
        remember_activity: c.remember_activity,
        theme: c.theme,
    }
}

/// What the application accumulates by itself.
#[derive(Clone, Debug)]
pub struct State {
    pub certificate: Option<CertificateRef>,
    pub last_open_folder: Option<String>,
    pub recents: Vec<RecentDocument>,
}

/// A state as a plain value.
pub struct StateV {
    pub certificate: Option<ReferenceView>,
    pub last_open_folder: Option<Seq<char>>,
    pub recents: Seq<RecentView>,
}

pub open spec fn state_view(s: State) -> StateV {
    StateV {
        certificate: match s.certificate {
            Some(c) => Some(c@),
            None => None,
        },
        last_open_folder: match s.last_open_folder {
            Some(f) => Some(f@),
            None => None,
        },
        recents: tray_view(s.recents@),
    }
}

impl State {
    /// Nothing accumulated yet.
    pub fn empty() -> (s: State)
        ensures
            s.certificate is None,
            s.last_open_folder is None,
            s.recents@.len() == 0,
    {
        State { certificate: None, last_open_folder: None, recents: Vec::new() }
    }

    pub fn copied(&self) -> (s: State)
        ensures
            state_view(s) == state_view(*self),
    {
        State {
            certificate: match &self.certificate {
                Some(c) => Some(c.copied()),
                None => None,
            },
            last_open_folder: match &self.last_open_folder {
                Some(f) => Some(f.clone()),
                None => None,
            },
            recents: crate::recents::copy_tray(&self.recents),
        }
    }
}

/// The files of the application: what is kept of each, if anything.
pub struct Memory {
    configuration: Option<Configuration>,
    state: Option<State>,
}

impl Memory {
    pub closed spec fn kept_configuration(&self) -> Option<ConfigurationV> {
        match self.configuration {
            Some(c) => Some(configuration_view(c)),
            None => None,
        }
    }

    pub closed spec fn kept_state(&self) -> Option<StateV> {
        match self.state {
            Some(s) => Some(state_view(s)),
            None => None,
        }
    }

    /// With the switch of the activity off, no activity is kept.
    pub open spec fn remembers_activity_of(&self, c: Configuration) -> bool {
        !c.remember_activity ==> self.kept_state() is None
    }

    /// The files of a first run: nothing kept.
    pub fn new() -> (m: Memory)
        ensures
            m.kept_configuration() is None,
            m.kept_state() is None,
    {
        Memory { configuration: None, state: None }
    }

    /// The files as they were read.
    pub fn with(configuration: Option<Configuration>, state: Option<State>) -> (m: Memory)
        ensures
            m.kept_configuration() == match configuration {
                Some(c) => Some(configuration_view(c)),
                None => None::<ConfigurationV>,
            },
            m.kept_state() == match state {
                Some(s) => Some(state_view(s)),
                None => None::<StateV>,
            },
    {
        Memory { configuration, state }
    }

    /// The configuration kept, if any.
    pub fn configuration(&self) -> (c: Option<Configuration>)
        ensures
            match c {
                Some(c) => self.kept_configuration() == Some(configuration_view(c)),
                None => self.kept_configuration() is None,
            },
    {
        match &self.configuration {
            Some(c) => Some(c.copied()),
            None => None,
        }
    }

    /// The state kept, if any.
    pub fn state(&self) -> (s: Option<State>)
        ensures
            match s {
                Some(s) => self.kept_state() == Some(state_view(s)),
                None => self.kept_state() is None,
            },
    {
        match &self.state {
            Some(s) => Some(s.copied()),
            None => None,
        }
    }

    /// Keeps a configuration; switching the activity off erases the activity
    /// already kept, here where it cannot be forgotten.
    pub fn remember_configuration(&mut self, configuration: Configuration)
        ensures
            final(self).kept_configuration() == Some(configuration_view(configuration)),
            configuration.remember_activity ==> final(self).kept_state() == old(self).kept_state(),
            !configuration.remember_activity ==> final(self).kept_state() is None,
    {
        if !configuration.remember_activity {
            self.state = None;
        }
        self.configuration = Some(configuration);
    }

    /// Keeps the accumulated state, only while the person lets the activity
    /// be remembered.
    pub fn remember_state(&mut self, configuration: &Configuration, state: State)
        ensures
            final(self).kept_configuration() == old(self).kept_configuration(),
            configuration.remember_activity ==> final(self).kept_state() == Some(state_view(state)),
            !configuration.remember_activity ==> final(self).kept_state() is None,
    {
        if configuration.remember_activity {
            self.state = Some(state);
        } else {
            self.state = None;
        }
    }

    /// Forgets the accumulated state.
    pub fn forget_activity(&mut self)
        ensures
            final(self).kept_configuration() == old(self).kept_configuration(),
            final(self).kept_state() is None,
    {
        self.state = None;
    }
}

} // verus!
