//! What the person chooses and the application obeys, from the files to the
//! window and back.
use vstd::prelude::*;

use crate::memory::{configuration_view, Memory};
use crate::situations::Failure;
use crate::text::{chars_of, same_text, string_of};

verus! {

/// The language of the visible signature's labels.
#[derive(Clone, Copy, Debug, PartialEq, Eq, Structural)]
pub enum Language {
    Spanish,
    Catalan,
    Basque,
    Galician,
    Valencian,
    English,
}

/// The short tag that names a language.
pub open spec fn tag_of(language: Language) -> Seq<char> {
    match language {
        Language::Spanish => "es"@,
        Language::Catalan => "ca"@,
        Language::Basque => "eu"@,
        Language::Galician => "gl"@,
        Language::Valencian => "va"@,
        Language::English => "en"@,
    }
}

impl Language {
    pub fn tag(&self) -> (t: &'static str)
        ensures
            t@ == tag_of(*self),
    {
        match self {
            Language::Spanish => "es",
            Language::Catalan => "ca",
            Language::Basque => "eu",
            Language::Galician => "gl",
            Language::Valencian => "va",
            Language::English => "en",
        }
    }
}

/// The language a tag names; anything unknown falls into Spanish, the
/// language of the ordinary administrative document.
pub open spec fn language_named(tag: Seq<char>) -> Language {
    if tag == "ca"@ {
        Language::Catalan
    } else if tag == "eu"@ {
        Language::Basque
    } else if tag == "gl"@ {
        Language::Galician
    } else if tag == "va"@ {
        Language::Valencian
    } else if tag == "en"@ {
        Language::English
    } else {
        Language::Spanish
    }
}


/// The language a short tag names.
pub fn language_of(tag: &str) -> (l: Language)
    ensures
        l == language_named(tag@),
{
    if same_text(tag, "ca") {
        Language::Catalan
    } else if same_text(tag, "eu") {
        Language::Basque
    } else if same_text(tag, "gl") {
        Language::Galician
    } else if same_text(tag, "va") {
        Language::Valencian
    } else if same_text(tag, "en") {
        Language::English
    } else {
        Language::Spanish
    }
}

/// Every language is named back by its own tag.
pub proof fn a_language_survives_its_tag(language: Language)
    ensures
        language_named(tag_of(language)) == language,
{
    reveal_strlit("es");
    reveal_strlit("ca");
    reveal_strlit("eu");
    reveal_strlit("gl");
    reveal_strlit("va");
    reveal_strlit("en");
    let t = tag_of(language);
    assert(t.len() == 2);
    if t =~= "ca"@ {
        assert(t[0] == 'c');
    }
    if t =~= "eu"@ {
        assert(t[0] == 'e' && t[1] == 'u');
    }
    if t =~= "gl"@ {
        assert(t[0] == 'g');
    }
    if t =~= "va"@ {
        assert(t[0] == 'v');
    }
    if t =~= "en"@ {
        assert(t[0] == 'e' && t[1] == 'n');
    }
}

/// The look of the window.
#[derive(Clone, Copy, Debug, PartialEq, Eq, Structural)]
pub enum Theme {
    System,
    Light,
    Dark,
}

/// The last segment of a path: what of it may cross to the window.
pub open spec fn last_segment(path: Seq<char>) -> Seq<char>
    decreases path.len(),
{
    if path.len() == 0 {
        Seq::empty()
    } else if path.last() == '/' {
        if exists|k: int| 0 <= k < path.len() && path[k] != '/' {
            last_segment(path.drop_last())
        } else {
            Seq::empty()
        }
    } else {
        after_last_slash(path)
    }
}

/// The last segment of a path never holds a `/`.
pub proof fn lemma_no_slash_in_the_last_segment(path: Seq<char>)
    ensures
        !last_segment(path).contains('/'),
    decreases path.len(),
{
    if path.len() > 0 {
        if path.last() == '/' {
            if exists|k: int| 0 <= k < path.len() && path[k] != '/' {
                lemma_no_slash_in_the_last_segment(path.drop_last());
            }
        } else {
            lemma_no_slash_after_the_last_slash(path);
        }
    }
}

proof fn lemma_no_slash_after_the_last_slash(path: Seq<char>)
    ensures
        !after_last_slash(path).contains('/'),
    decreases path.len(),
{
    if path.len() > 0 && path.last() != '/' {
        lemma_no_slash_after_the_last_slash(path.drop_last());
        let init = after_last_slash(path.drop_last());
        assert forall|k: int| 0 <= k < init.push(path.last()).len() implies init.push(path.last())[k] != '/' by {
            if k < init.len() {
                assert(!init.contains('/'));
                assert(init[k] != '/');
            }
        }
    }
}

/// What follows the last `/`, or the whole text when there is none.
pub open spec fn after_last_slash(path: Seq<char>) -> Seq<char>
    decreases path.len(),
{
    if path.len() == 0 {
        Seq::empty()
    } else if path.last() == '/' {
        Seq::empty()
    } else {
        after_last_slash(path.drop_last()).push(path.last())
    }
}

/// What precedes the last segment, without its trailing `/`; nothing for a
/// path that has no parent.
pub open spec fn parent_of(path: Seq<char>) -> Option<Seq<char>>
    decreases path.len(),
{
    if path.len() == 0 {
        None
    } else if path.last() == '/' {
        parent_of(path.drop_last())
    } else {
        let head = path.take(path.len() - after_last_slash(path).len());
        if head.len() == 0 {
            None
        } else if forall|k: int| 0 <= k < head.len() ==> head[k] == '/' {
            Some("/"@)
        } else {
            Some(trailing_slashes_dropped(head))
        }
    }
}

/// The text without its trailing `/`.
pub open spec fn trailing_slashes_dropped(path: Seq<char>) -> Seq<char>
    decreases path.len(),
{
    if path.len() > 0 && path.last() == '/' {
        trailing_slashes_dropped(path.drop_last())
    } else {
        path
    }
}

proof fn lemma_after_last_slash(path: Seq<char>, k: int)
    requires
        0 <= k <= path.len(),
        forall|j: int| k <= j < path.len() ==> path[j] != '/',
        k == 0 || path[k - 1] == '/',
    ensures
        after_last_slash(path) == path.skip(k),
    decreases path.len(),
{
    if path.len() > k {
        lemma_after_last_slash(path.drop_last(), k);
        assert(path.drop_last().skip(k).push(path.last()) =~= path.skip(k));
    } else {
        assert(path.skip(k) =~= Seq::<char>::empty());
    }
}

/// The last segment of a path.
pub fn name_in(path: &[char]) -> (r: Vec<char>)
    ensures
        r@ == last_segment(path@),
    decreases path.len(),
{
    if path.len() == 0 {
        return Vec::new();
    }
    if path[path.len() - 1] == '/' {
        let mut k: usize = 0;
        let mut only_slashes = true;
        while k < path.len()
            invariant
                0 <= k <= path.len(),
                only_slashes == (forall|j: int| 0 <= j < k ==> path@[j] == '/'),
            decreases path.len() - k,
        {
            if path[k] != '/' {
                only_slashes = false;
            }
            k = k + 1;
        }
        if only_slashes {
            return Vec::new();
        }
        let mut shorter: Vec<char> = Vec::new();
        let mut i: usize = 0;
        while i < path.len() - 1
            invariant
                0 <= i <= path.len() - 1,
                shorter@ =~= path@.take(i as int),
            decreases path.len() - 1 - i,
        {
            shorter.push(path[i]);
            i = i + 1;
        }
        assert(shorter@ =~= path@.drop_last());
        return name_in(&shorter);
    }
    let mut k: usize = path.len();
    while k > 0 && path[k - 1] != '/'
        invariant
            0 <= k <= path.len(),
            forall|j: int| k <= j < path.len() ==> path@[j] != '/',
        decreases k,
    {
        k = k - 1;
    }
    proof {
        lemma_after_last_slash(path@, k as int);
    }
    let mut r: Vec<char> = Vec::new();
    let mut i: usize = k;
    while i < path.len()
        invariant
            k <= i <= path.len(),
            r@ =~= path@.subrange(k as int, i as int),
        decreases path.len() - i,
    {
        r.push(path[i]);
        i = i + 1;
    }
    assert(path@.skip(k as int) =~= path@.subrange(k as int, path.len() as int));
    r
}

/// The folder where signed documents land, chosen once.
#[derive(Clone, Debug)]
pub struct DestinationFolder {
    pub path: String,
}

impl DestinationFolder {
    pub fn at(path: &str) -> (f: DestinationFolder)
        ensures
            f.path@ == path@,
    {
        DestinationFolder { path: path.to_owned() }
    }

    pub fn path(&self) -> (p: &str)
        ensures
            p@ == self.path@,
    {
        self.path.as_str()
    }

    /// The folder by its name: the only part of it the window sees.
    pub fn name(&self) -> (n: String)
        ensures
            n@ == last_segment(self.path@),
    {
        string_of(&name_in(&chars_of(self.path.as_str())))
    }

    pub fn copied(&self) -> (f: DestinationFolder)
        ensures
            f.path@ == self.path@,
    {
        DestinationFolder { path: self.path.clone() }
    }
}

/// What the person chose.
#[derive(Clone, Debug)]
pub struct Configuration {
    pub language: Language,
    pub destination: Option<DestinationFolder>,
    pub remember_visible_signature: bool,
    pub remember_activity: bool,
    pub theme: Theme,
}

/// The destination a configuration names, as a path.
pub open spec fn destination_view(c: Configuration) -> Option<Seq<char>> {
    match c.destination {
        Some(f) => Some(f.path@),
        None => None,
    }
}

impl Configuration {
    /// What a first run starts with.
    pub fn default_choices() -> (c: Configuration)
        ensures
            c.language == Language::Spanish,
            c.destination is None,
            c.remember_visible_signature,
            c.remember_activity,
            c.theme == Theme::System,
    {
        Configuration {
            language: Language::Spanish,
            destination: None,
            remember_visible_signature: true,
            remember_activity: true,
            theme: Theme::System,
        }
    }

    pub fn copied(&self) -> (c: Configuration)
        ensures
            c.language == self.language,
            destination_view(c) == destination_view(*self),
            c.remember_visible_signature == self.remember_visible_signature,
            c.remember_activity == self.remember_activity,
            c.theme == self.theme,
    {
        Configuration {
            language: self.language,
            destination: match &self.destination {
                Some(f) => Some(f.copied()),
                None => None,
            },
            remember_visible_signature: self.remember_visible_signature,
            remember_activity: self.remember_activity,
            theme: self.theme,
        }
    }
}

impl Default for Configuration {
    fn default() -> (c: Configuration)
        ensures
            c.language == Language::Spanish,
            c.destination is None,
            c.remember_visible_signature,
            c.remember_activity,
            c.theme == Theme::System,
    {
        Configuration::default_choices()
    }
}

/// The configuration as the window sees it: the destination by its name.
#[derive(Clone, Debug)]
pub struct ConfigurationView {
    pub language: String,
    pub destination: String,
    pub remember_visible_signature: bool,
    pub remember_activity: bool,
    pub theme: Theme,
}

/// The folder chosen, or the documents folder when none was.
pub open spec fn chosen_path(configuration: Configuration, documents_folder: Seq<char>) -> Seq<
    char,
> {
    match configuration.destination {
        Some(f) => f.path@,
        None => documents_folder,
    }
}

/// The destination folder chosen, or the documents folder by default.
pub fn chosen_folder(configuration: &Configuration, documents_folder: &str) -> (f: DestinationFolder)
    ensures
        f.path@ == chosen_path(*configuration, documents_folder@),
{
    match &configuration.destination {
        Some(folder) => folder.copied(),
        None => DestinationFolder::at(documents_folder),
    }
}

/// How the window sees the configuration that is kept.
pub fn shown(configuration: &Configuration, documents_folder: &str) -> (v: ConfigurationView)
    ensures
        v.language@ == tag_of(configuration.language),
        v.destination@ == last_segment(chosen_path(*configuration, documents_folder@)),
        v.remember_visible_signature == configuration.remember_visible_signature,
        v.remember_activity == configuration.remember_activity,
        v.theme == configuration.theme,
{
    let folder = chosen_folder(configuration, documents_folder);
    ConfigurationView {
        language: configuration.language.tag().to_owned(),
        destination: folder.name(),
        remember_visible_signature: configuration.remember_visible_signature,
        remember_activity: configuration.remember_activity,
        theme: configuration.theme,
    }
}

/// What was chosen, on top of what was kept: the destination never travels
/// back from the window.
pub fn merged(live: &Configuration, chosen: &ConfigurationView) -> (c: Configuration)
    ensures
        c.language == language_named(chosen.language@),
        destination_view(c) == destination_view(*live),
        c.remember_visible_signature == chosen.remember_visible_signature,
        c.remember_activity == chosen.remember_activity,
        c.theme == chosen.theme,
{
    Configuration {
        language: language_of(chosen.language.as_str()),
        destination: match &live.destination {
            Some(f) => Some(f.copied()),
            None => None,
        },
        remember_visible_signature: chosen.remember_visible_signature,
        remember_activity: chosen.remember_activity,
        theme: chosen.theme,
    }
}

/// What the window shows and what it sends back leave the kept
/// configuration as it was: the round trip changes nothing.
pub proof fn the_window_round_trip_keeps_the_configuration(
    live: Configuration,
    documents_folder: Seq<char>,
    view: ConfigurationView,
    back: Configuration,
)
    requires
        view.language@ == tag_of(live.language),
        view.remember_visible_signature == live.remember_visible_signature,
        view.remember_activity == live.remember_activity,
        view.theme == live.theme,
        back.language == language_named(view.language@),
        destination_view(back) == destination_view(live),
        back.remember_visible_signature == view.remember_visible_signature,
        back.remember_activity == view.remember_activity,
        back.theme == view.theme,
    ensures
        back.language == live.language,
        destination_view(back) == destination_view(live),
        back.remember_visible_signature == live.remember_visible_signature,
        back.remember_activity == live.remember_activity,
        back.theme == live.theme,
{
    a_language_survives_its_tag(live.language);
}

/// Keeps what the person just chose, in the files' copy and in the live
/// copy, the two or neither.
pub fn write<P>(memory: &mut Memory, live: &mut Configuration, chosen: &ConfigurationView, persist: P) -> (r: Result<
    (),
    Failure,
>) where P: FnOnce(&Configuration) -> Result<(), Failure>,
    requires
        forall|c: &Configuration| persist.requires((c,)),
    ensures
        exists|next: Configuration, saved: Result<(), Failure>|
            #[trigger] persist.ensures((&next,), saved) && next.language == language_named(chosen.language@)
                && destination_view(next) == destination_view(*old(live)) && next.remember_visible_signature
                == chosen.remember_visible_signature && next.remember_activity == chosen.remember_activity
                && next.theme == chosen.theme && match saved {
                Err(f) => r == Err::<(), Failure>(f) && *final(live) == *old(live) && *final(memory) == *old(memory),
                Ok(_) => r is Ok && configuration_view(*final(live)) == configuration_view(next),
            },
        r is Ok ==> final(live).language == language_named(chosen.language@),
        r is Ok ==> destination_view(*final(live)) == destination_view(*old(live)),
        r is Ok ==> final(live).remember_visible_signature == chosen.remember_visible_signature,
        r is Ok ==> final(live).remember_activity == chosen.remember_activity,
        r is Ok ==> final(live).theme == chosen.theme,
        r is Ok ==> final(memory).kept_configuration() == Some(configuration_view(*final(live))),
        r is Ok ==> final(memory).remembers_activity_of(*final(live)),
        r is Ok && final(live).remember_activity ==> final(memory).kept_state() == old(memory).kept_state(),
{
    let next = merged(live, chosen);
    let saved = persist(&next);
    assert(persist.ensures((&next,), saved));
    if let Err(f) = saved {
        return Err(f);
    }
    memory.remember_configuration(next.copied());
    *live = next;
    Ok(())
}

/// Keeps the folder the directory picker just granted, and gives it back by
/// its name.
pub fn choose_destination<P>(
    memory: &mut Memory,
    live: &mut Configuration,
    folder: DestinationFolder,
    persist: P,
) -> (r: Result<String, Failure>) where P: FnOnce(&Configuration) -> Result<(), Failure>,
    requires
        forall|c: &Configuration| persist.requires((c,)),
    ensures
        exists|next: Configuration, saved: Result<(), Failure>|
            #[trigger] persist.ensures((&next,), saved) && destination_view(next) == Some(folder.path@)
                && next.language == old(live).language && next.remember_visible_signature
                == old(live).remember_visible_signature && next.remember_activity == old(live).remember_activity
                && next.theme == old(live).theme && match saved {
                Err(f) => r == Err::<String, Failure>(f) && *final(live) == *old(live) && *final(memory) == *old(memory),
                Ok(_) => r is Ok && configuration_view(*final(live)) == configuration_view(next),
            },
        r matches Ok(name) ==> name@ == last_segment(folder.path@),
        r is Ok ==> destination_view(*final(live)) == Some(folder.path@),
        r is Ok ==> final(live).language == old(live).language,
        r is Ok ==> final(live).remember_visible_signature == old(live).remember_visible_signature,
        r is Ok ==> final(live).remember_activity == old(live).remember_activity,
        r is Ok ==> final(live).theme == old(live).theme,
        r is Ok ==> final(memory).kept_configuration() == Some(configuration_view(*final(live))),
        r is Ok ==> final(memory).remembers_activity_of(*final(live)),
        r is Ok && final(live).remember_activity ==> final(memory).kept_state() == old(memory).kept_state(),
{
    let name = folder.name();
    let next = Configuration { destination: Some(folder), ..live.copied() };
    let saved = persist(&next);
    assert(persist.ensures((&next,), saved));
    if let Err(f) = saved {
        return Err(f);
    }
    memory.remember_configuration(next.copied());
    *live = next;
    Ok(name)
}

/// Forgets what was accumulated: the recent documents and the certificate;
/// no switch is touched.
pub fn forget_activity(memory: &mut Memory) -> (r: Result<(), Failure>)
    ensures
        r is Ok,
        final(memory).kept_state() is None,
        final(memory).kept_configuration() == old(memory).kept_configuration(),
{
    memory.forget_activity();
    Ok(())
}

} // verus!
