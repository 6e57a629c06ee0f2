//! Where a document comes in and where the signed one lands: the registry of
//! documents opened in this session and what their paths tell.
use vstd::prelude::*;

use crate::configuration::{chosen_folder, chosen_path, last_segment, lemma_no_slash_in_the_last_segment, name_in, Configuration, DestinationFolder};
use crate::memory::{state_view, Memory, State};
use crate::situations::Failure;
use crate::text::{chars_of, has_prefix, hex, hex_of, lemma_hex_injective, lemma_pow16_bound, starts_with, string_of};

verus! {

/// Whether a path is a link of the document portal:
/// `/run/user/<uid>/doc/…`.
pub open spec fn is_portal_path(p: Seq<char>) -> bool {
    has_prefix(p, "/run/user/"@) && exists|k: int|
        10 < k < p.len() && p[k] == '/' && (forall|j: int| 10 <= j < k ==> p[j] != '/')
            && #[trigger] has_prefix(p.skip(k + 1), "doc/"@)
}

/// The parent folder of a path: what precedes its last `/`; `/` for a top
/// level entry; nothing when there is no `/` before the name.
pub open spec fn parent_path(p: Seq<char>) -> Option<Seq<char>> {
    let name = last_segment(p);
    let head = p.take(p.len() - name.len());
    if !(exists|j: int| 0 <= j < head.len() && head[j] == '/') {
        None
    } else {
        let k = last_slash(head);
        if k == 0 {
            Some("/"@)
        } else {
            Some(head.take(k))
        }
    }
}

/// Where the last `/` of a text stands; `-1` when there is none.
pub open spec fn last_slash(s: Seq<char>) -> int
    decreases s.len(),
{
    if s.len() == 0 {
        -1
    } else if s.last() == '/' {
        s.len() - 1
    } else {
        last_slash(s.drop_last())
    }
}

/// A document the person opened, by the path it is read through.
#[derive(Clone, Debug)]
pub struct PortalDocument {
    pub path: String,
}

fn portal_path(p: &[char]) -> (r: bool)
    ensures
        r == is_portal_path(p@),
{
    let prefix = chars_of("/run/user/");
    let doc = chars_of("doc/");
    proof {
        reveal_strlit("/run/user/");
    }
    if !starts_with(p, &prefix) {
        return false;
    }
    let mut k: usize = 10;
    while k < p.len() && p[k] != '/'
        invariant
            10 <= k <= p.len(),
            forall|j: int| 10 <= j < k ==> p@[j] != '/',
        decreases p.len() - k,
    {
        k = k + 1;
    }
    if k == 10 || k == p.len() {
        proof {
            assert forall|m: int|
                10 < m < p@.len() && p@[m] == '/' && (forall|j: int| 10 <= j < m ==> p@[j] != '/')
                    implies !#[trigger] has_prefix(p@.skip(m + 1), doc@) by {
                if k == 10 {
                    assert(p@[10] == '/');
                } else {
                    assert(p@[m] != '/');
                }
            }
        }
        return false;
    }
    let mut rest: Vec<char> = Vec::new();
    let mut i: usize = k + 1;
    while i < p.len()
        invariant
            k + 1 <= i <= p.len(),
            rest@ =~= p@.subrange(k + 1, i as int),
        decreases p.len() - i,
    {
        rest.push(p[i]);
        i = i + 1;
    }
    assert(rest@ =~= p@.skip(k + 1));
    let r = starts_with(&rest, &doc);
    proof {
        if !r {
            assert forall|m: int|
                10 < m < p@.len() && p@[m] == '/' && (forall|j: int| 10 <= j < m ==> p@[j] != '/')
                    implies !#[trigger] has_prefix(p@.skip(m + 1), doc@) by {
                if m < k {
                    assert(p@[m] != '/');
                } else if m > k {
                    assert(p@[k as int] != '/');
                }
            }
        }
    }
    r
}

proof fn lemma_last_slash(s: Seq<char>)
    ensures
        -1 <= last_slash(s) < s.len(),
        last_slash(s) >= 0 ==> s[last_slash(s)] == '/',
        forall|j: int| last_slash(s) < j < s.len() ==> s[j] != '/',
        last_slash(s) == -1 <==> !(exists|j: int| 0 <= j < s.len() && s[j] == '/'),
    decreases s.len(),
{
    if s.len() > 0 {
        lemma_last_slash(s.drop_last());
        if s.last() != '/' {
            assert forall|j: int| last_slash(s) < j < s.len() implies s[j] != '/' by {
                if j < s.len() - 1 {
                    assert(s[j] == s.drop_last()[j]);
                }
            }
            if last_slash(s) == -1 {
                assert forall|j: int| 0 <= j < s.len() implies s[j] != '/' by {
                    if j < s.len() - 1 {
                        assert(s[j] == s.drop_last()[j]);
                    }
                }
            }
        }
    }
}

proof fn lemma_last_segment_len(p: Seq<char>)
    ensures
        last_segment(p).len() <= p.len(),
    decreases p.len(),
{
    if p.len() > 0 {
        if p.last() == '/' {
            if exists|k: int| 0 <= k < p.len() && p[k] != '/' {
                lemma_last_segment_len(p.drop_last());
            }
        } else {
            lemma_after_len(p);
        }
    }
}

proof fn lemma_after_len(p: Seq<char>)
    ensures
        crate::configuration::after_last_slash(p).len() <= p.len(),
    decreases p.len(),
{
    if p.len() > 0 && p.last() != '/' {
        lemma_after_len(p.drop_last());
    }
}

fn copy_prefix(p: &[char], n: usize) -> (r: Vec<char>)
    requires
        n <= p.len(),
    ensures
        r@ == p@.take(n as int),
{
    let mut r: Vec<char> = Vec::new();
    let mut i: usize = 0;
    while i < n
        invariant
            0 <= i <= n <= p.len(),
            r@ =~= p@.take(i as int),
        decreases n - i,
    {
        r.push(p[i]);
        i = i + 1;
    }
    r
}

/// The parent folder of a path, as `parent_path` says.
fn parent(p: &[char]) -> (r: Option<Vec<char>>)
    ensures
        match r {
            Some(v) => parent_path(p@) == Some(v@),
            None => parent_path(p@) is None,
        },
{
    let name = name_in(p);
    proof {
        lemma_last_segment_len(p@);
    }
    let head = copy_prefix(p, p.len() - name.len());
    let mut k: usize = head.len();
    while k > 0 && head[k - 1] != '/'
        invariant
            0 <= k <= head.len(),
            forall|j: int| k <= j < head.len() ==> head@[j] != '/',
        decreases k,
    {
        k = k - 1;
    }
    proof {
        lemma_last_slash(head@);
        if k > 0 {
            assert(last_slash(head@) >= k - 1);
            assert(last_slash(head@) == k - 1);
        } else {
            assert(last_slash(head@) == -1);
        }
    }
    if k == 0 {
        return None;
    }
    if k == 1 {
        let slash = chars_of("/");
        return Some(slash);
    }
    Some(copy_prefix(&head, k - 1))
}

/// The parent folder of a path.
pub fn parent_of_path(path: &str) -> (r: Option<String>)
    ensures
        match r {
            Some(p) => parent_path(path@) == Some(p@),
            None => parent_path(path@) is None,
        },
{
    match parent(&chars_of(path)) {
        Some(folder) => Some(string_of(&folder)),
        None => None,
    }
}

impl PortalDocument {
    /// The document behind a path the dialog granted.
    pub fn opened(handle: &str) -> (d: PortalDocument)
        ensures
            d.path@ == handle@,
    {
        PortalDocument { path: handle.to_owned() }
    }

    /// The path it is read through.
    pub fn reading_path(&self) -> (p: &str)
        ensures
            p@ == self.path@,
    {
        self.path.as_str()
    }

    /// Its file name.
    pub fn name(&self) -> (n: String)
        ensures
            n@ == last_segment(self.path@),
    {
        string_of(&name_in(&chars_of(self.path.as_str())))
    }

    /// Whether it came in through the document portal.
    pub fn came_through_the_portal(&self) -> (r: bool)
        ensures
            r == is_portal_path(self.path@),
    {
        portal_path(&chars_of(self.path.as_str()))
    }

    pub fn copied(&self) -> (d: PortalDocument)
        ensures
            d.path@ == self.path@,
    {
        PortalDocument { path: self.path.clone() }
    }
}

/// The folder the document came from, or nothing when it came through the
/// portal: the parent of a portal link is no folder of the person.
pub open spec fn origin_of(document: PortalDocument) -> Option<Seq<char>> {
    if is_portal_path(document.path@) {
        None
    } else {
        parent_path(document.path@)
    }
}

/// The folder the document came from, or nothing if it came through the
/// portal.
pub fn folder_it_came_from(document: &PortalDocument) -> (r: Option<String>)
    ensures
        match r {
            Some(f) => origin_of(*document) == Some(f@),
            None => origin_of(*document) is None,
        },
{
    if document.came_through_the_portal() {
        return None;
    }
    match parent(&chars_of(document.reading_path())) {
        Some(folder) => Some(string_of(&folder)),
        None => None,
    }
}

/// What "next to the original" means for this document, or nothing.
pub fn next_to_the_original(document: &PortalDocument) -> (r: Option<DestinationFolder>)
    ensures
        match r {
            Some(f) => origin_of(*document) == Some(f.path@),
            None => origin_of(*document) is None,
        },
{
    match folder_it_came_from(document) {
        Some(folder) => Some(DestinationFolder::at(folder.as_str())),
        None => None,
    }
}

/// The real path of the document, when it is known: never the portal link.
pub fn real_path_of(document: &PortalDocument) -> (r: Option<String>)
    ensures
        match r {
            Some(p) => !is_portal_path(document.path@) && p@ == document.path@,
            None => is_portal_path(document.path@),
        },
{
    if document.came_through_the_portal() {
        return None;
    }
    Some(document.path.clone())
}

/// Whether a document opened in this session leaves a row among the recent
/// ones.
#[derive(Clone, Copy, Debug, PartialEq, Eq, Structural)]
pub enum Remembrance {
    Remembered,
    Unrecorded,
}

/// The documents opened in this session, by their opaque identifiers.
pub struct OpenedDocuments {
    entries: Vec<(String, PortalDocument, Remembrance)>,
    serials: Vec<u64>,
    minted: u64,
}

impl View for OpenedDocuments {
    type V = Seq<(Seq<char>, Seq<char>, Remembrance)>;

    closed spec fn view(&self) -> Seq<(Seq<char>, Seq<char>, Remembrance)> {
        self.entries@.map_values(
            |e: (String, PortalDocument, Remembrance)| (e.0@, e.1.path@, e.2),
        )
    }
}

/// The identifier a path was last opened under, if it was opened at all.
pub open spec fn last_opened_as(entries: Seq<(Seq<char>, Seq<char>, Remembrance)>, path: Seq<char>) -> Option<
    Seq<char>,
>
    decreases entries.len(),
{
    if entries.len() == 0 {
        None
    } else if entries.last().1 == path {
        Some(entries.last().0)
    } else {
        last_opened_as(entries.drop_last(), path)
    }
}

/// The document an identifier names, with its remembrance.
pub open spec fn opened_under(entries: Seq<(Seq<char>, Seq<char>, Remembrance)>, id: Seq<char>) -> Option<
    (Seq<char>, Remembrance),
>
    decreases entries.len(),
{
    if entries.len() == 0 {
        None
    } else if entries[0].0 == id {
        Some((entries[0].1, entries[0].2))
    } else {
        opened_under(entries.drop_first(), id)
    }
}

impl OpenedDocuments {
    pub closed spec fn well_formed(&self) -> bool {
        &&& self.entries.len() == self.serials.len()
        &&& forall|k: int|
            0 <= k < self.serials.len() ==> #[trigger] self.serials[k] < self.minted
                && self.entries[k].0@ == hex(self.serials[k] as nat, 32)
        &&& forall|j: int, k: int|
            0 <= j < k < self.serials.len() ==> #[trigger] self.serials[j] < #[trigger] self.serials[k]
    }

    pub closed spec fn minted(&self) -> nat {
        self.minted as nat
    }

    /// The registry of a session that opened nothing yet.
    pub fn new() -> (o: OpenedDocuments)
        ensures
            o.well_formed(),
            o@ == Seq::<(Seq<char>, Seq<char>, Remembrance)>::empty(),
            o.minted() == 0,
    {
        let o = OpenedDocuments { entries: Vec::new(), serials: Vec::new(), minted: 0 };
        assert(o@ =~= Seq::<(Seq<char>, Seq<char>, Remembrance)>::empty());
        o
    }

    /// Every identifier is different from every other.
    pub proof fn identifiers_are_distinct(&self)
        requires
            self.well_formed(),
        ensures
            forall|j: int, k: int|
                0 <= j < k < self@.len() ==> #[trigger] self@[j].0 != #[trigger] self@[k].0,
    {
        assert forall|j: int, k: int| 0 <= j < k < self@.len() implies #[trigger] self@[j].0
            != #[trigger] self@[k].0 by {
            assert(self@[j].0 == self.entries[j].0@);
            assert(self@[k].0 == self.entries[k].0@);
            lemma_pow16_bound(32);
            if self@[j].0 == self@[k].0 {
                lemma_hex_injective(self.serials[j] as nat, self.serials[k] as nat, 32);
            }
        }
    }

    fn keep(&mut self, document: PortalDocument, remembrance: Remembrance) -> (id: String)
        requires
            old(self).well_formed(),
            old(self).minted() < u64::MAX,
        ensures
            final(self).well_formed(),
            final(self).minted() == old(self).minted() + 1,
            final(self)@ == old(self)@.push((id@, document.path@, remembrance)),
            id@ == hex(old(self).minted(), 32),
    {
        let serial = self.minted;
        let id = string_of(&hex_of(serial, 32));
        let ghost before = self@;
        self.entries.push((id.clone(), document, remembrance));
        self.serials.push(serial);
        self.minted = serial + 1;
        assert(self@ =~= before.push((id@, self.entries@.last().1.path@, remembrance)));
        id
    }

    /// Notes a document the person opened; it leaves a row among the recent
    /// ones.
    pub fn remember(&mut self, document: PortalDocument) -> (id: String)
        requires
            old(self).well_formed(),
            old(self).minted() < u64::MAX,
        ensures
            final(self).well_formed(),
            final(self).minted() == old(self).minted() + 1,
            final(self)@ == old(self)@.push((id@, document.path@, Remembrance::Remembered)),
    {
        self.keep(document, Remembrance::Remembered)
    }

    /// Notes a document that must leave no row: the one a site sent.
    pub fn remember_unrecorded(&mut self, document: PortalDocument) -> (id: String)
        requires
            old(self).well_formed(),
            old(self).minted() < u64::MAX,
        ensures
            final(self).well_formed(),
            final(self).minted() == old(self).minted() + 1,
            final(self)@ == old(self)@.push((id@, document.path@, Remembrance::Unrecorded)),
    {
        self.keep(document, Remembrance::Unrecorded)
    }

    fn find(&self, id: &str) -> (r: Option<usize>)
        ensures
            match r {
                Some(k) => k < self@.len() && opened_under(self@, id@) == Some(
                    (self@[k as int].1, self@[k as int].2),
                ) && self@[k as int].1 == self.entries[k as int].1.path@ && self@[k as int].2
                    == self.entries[k as int].2,
                None => opened_under(self@, id@) is None,
            },
    {
        let wanted = id.to_owned();
        let mut k: usize = 0;
        assert(self@.skip(0) =~= self@);
        while k < self.entries.len()
            invariant
                0 <= k <= self.entries.len(),
                wanted@ == id@,
                opened_under(self@, id@) == opened_under(self@.skip(k as int), id@),
            decreases self.entries.len() - k,
        {
            let rest = Ghost(self@.skip(k as int));
            assert(rest@[0] == (
                self.entries[k as int].0@,
                self.entries[k as int].1.path@,
                self.entries[k as int].2,
            ));
            assert(rest@.drop_first() =~= self@.skip(k + 1));
            if self.entries[k].0 == wanted {
                return Some(k);
            }
            k = k + 1;
        }
        None
    }

    /// The document opened under that identifier.
    pub fn get(&self, id: &str) -> (r: Option<PortalDocument>)
        ensures
            match r {
                Some(d) => opened_under(self@, id@) matches Some(found) && found.0 == d.path@,
                None => opened_under(self@, id@) is None,
            },
    {
        match self.find(id) {
            Some(k) => Some(self.entries[k].1.copied()),
            None => None,
        }
    }

    /// Whether the document under that identifier leaves a row.
    /// The identifier the path was last opened under, if any.
    pub fn last_id_of(&self, path: &str) -> (r: Option<String>)
        ensures
            match r {
                Some(id) => last_opened_as(self@, path@) == Some(id@),
                None => last_opened_as(self@, path@) is None,
            },
    {
        let mut found: Option<String> = None;
        let mut k: usize = 0;
        proof {
            assert(self@.take(0).len() == 0);
        }
        while k < self.entries.len()
            invariant
                0 <= k <= self.entries.len(),
                self@.len() == self.entries.len(),
                match found {
                    Some(id) => last_opened_as(self@.take(k as int), path@) == Some(id@),
                    None => last_opened_as(self@.take(k as int), path@) is None,
                },
            decreases self.entries.len() - k,
        {
            let ghost before = self@.take(k as int);
            let ghost after = self@.take(k + 1);
            proof {
                assert(after.drop_last() =~= before);
                assert(after.last() == self@[k as int]);
                assert(self@[k as int] == (self.entries@[k as int].0@, self.entries@[k as int].1.path@, self.entries@[k as int].2));
            }
            if crate::text::same_text(self.entries[k].1.path.as_str(), path) {
                found = Some(self.entries[k].0.clone());
            }
            k = k + 1;
        }
        proof {
            assert(self@.take(k as int) =~= self@);
        }
        found
    }

    pub fn remembrance(&self, id: &str) -> (r: Option<Remembrance>)
        ensures
            match r {
                Some(m) => opened_under(self@, id@) matches Some(found) && found.1 == m,
                None => opened_under(self@, id@) is None,
            },
    {
        match self.find(id) {
            Some(k) => Some(self.entries[k].2),
            None => None,
        }
    }
}

/// The document opened under that identifier; one that is not there is a
/// document that cannot be read, which is what the window can show.
pub fn opened_document(opened: &OpenedDocuments, id: &str) -> (r: Result<PortalDocument, Failure>)
    ensures
        match r {
            Ok(d) => opened_under(opened@, id@) matches Some(found) && found.0 == d.path@,
            Err(f) => opened_under(opened@, id@) is None && f.situation@ == "documentUnreadable"@,
        },
{
    match opened.get(id) {
        Some(document) => Ok(document),
        None => Err(
            Failure::new(
                "documentUnreadable",
                string_of(&chars_of("el documento ya no esta abierto en esta sesion")),
            ),
        ),
    }
}

/// A signed document as the window is told of it: two names and a size,
/// and no path.
#[derive(Clone, Debug)]
pub struct SignedDocumentView {
    pub name: String,
    pub folder: String,
    pub size_bytes: u64,
}

/// How a signed document is told: its file name, its folder's name and the
/// size of the bytes just written.
pub fn told_as(landing: &str, folder: &DestinationFolder, size_bytes: u64) -> (v: SignedDocumentView)
    ensures
        v.name@ == last_segment(landing@),
        v.folder@ == last_segment(folder.path@),
        v.size_bytes == size_bytes,
{
    SignedDocumentView {
        name: string_of(&name_in(&chars_of(landing))),
        folder: folder.name(),
        size_bytes,
    }
}

/// A document opened as the window is told of it.
#[derive(Clone, Debug)]
pub struct OpenedDocumentView {
    pub id: String,
    pub name: String,
    pub modified: Option<u64>,
    pub path: Option<String>,
}

/// Notes the document in the session's registry and tells it by its opaque
/// identifier, its name, its `mtime` and its real path when it has one.
pub fn told_as_opened(
    document: PortalDocument,
    modified: Option<u64>,
    opened: &mut OpenedDocuments,
) -> (v: OpenedDocumentView)
    requires
        old(opened).well_formed(),
        old(opened).minted() < u64::MAX,
    ensures
        final(opened).well_formed(),
        final(opened).minted() == old(opened).minted() + 1,
        final(opened)@ == old(opened)@.push((v.id@, document.path@, Remembrance::Remembered)),
        v.name@ == last_segment(document.path@),
        v.modified == modified,
        match v.path {
            Some(p) => !is_portal_path(document.path@) && p@ == document.path@,
            None => is_portal_path(document.path@),
        },
{
    let name = document.name();
    let path = real_path_of(&document);
    let id = opened.remember(document);
    OpenedDocumentView { id, name, modified, path }
}

/// Writes into the state the folder the document came from, when it can be
/// known; failing to keep it never stops the document from opening.
pub fn remember_the_folder(memory: &mut Memory, configuration: &Configuration, document: &PortalDocument)
    ensures
        final(memory).kept_configuration() == old(memory).kept_configuration(),
        origin_of(*document) is None ==> final(memory).kept_state() == old(memory).kept_state(),
        (origin_of(*document) is Some && configuration.remember_activity) ==> (final(memory).kept_state() is Some
            && final(memory).kept_state()->0.last_open_folder == origin_of(*document)),
        !configuration.remember_activity ==> (final(memory).kept_state() is None
            || final(memory).kept_state() == old(memory).kept_state()),
{
    let folder = match folder_it_came_from(document) {
        Some(folder) => folder,
        None => return ,
    };
    let mut state = match memory.state() {
        Some(state) => state,
        None => State::empty(),
    };
    if let Some(kept) = &state.last_open_folder {
        if *kept == folder {
            return ;
        }
    }
    state.last_open_folder = Some(folder);
    memory.remember_state(configuration, state);
}

/// Notes the document the dialog just granted, and the folder it came from.
pub fn note_opened(
    memory: &mut Memory,
    configuration: &Configuration,
    opened: &mut OpenedDocuments,
    handle: &str,
    modified: Option<u64>,
) -> (v: OpenedDocumentView)
    requires
        old(opened).well_formed(),
        old(opened).minted() < u64::MAX,
    ensures
        final(opened).well_formed(),
        final(opened)@ == old(opened)@.push((v.id@, handle@, Remembrance::Remembered)),
        v.name@ == last_segment(handle@),
        v.modified == modified,
        final(memory).kept_configuration() == old(memory).kept_configuration(),
{
    let document = PortalDocument::opened(handle);
    remember_the_folder(memory, configuration, &document);
    told_as_opened(document, modified, opened)
}

/// What was dropped on the window, once the files were looked at.
#[derive(Clone, Debug)]
pub enum Dropped {
    Nothing,
    Opened { path: String, modified: Option<u64>, ignored: usize },
    NotAPdf { ignored: usize },
    Unreadable { detail: String, ignored: usize },
}

/// What the window is told of a drop.
#[derive(Clone, Debug)]
pub struct DroppedDocumentView {
    pub document: Option<OpenedDocumentView>,
    pub failure: Option<Failure>,
    pub ignored: usize,
}

/// Decides what to do with what was dropped and notes it when it opens;
/// nothing when nothing was dropped.
pub fn dropped_document(dropped: Dropped, opened: &mut OpenedDocuments) -> (r: Option<DroppedDocumentView>)
    requires
        old(opened).well_formed(),
        old(opened).minted() < u64::MAX,
    ensures
        final(opened).well_formed(),
        dropped is Opened ==> final(opened).minted() == old(opened).minted() + 1,
        !(dropped is Opened) ==> final(opened).minted() == old(opened).minted(),
        match dropped {
            Dropped::Nothing => r is None && final(opened)@ == old(opened)@,
            Dropped::Opened { path, modified, ignored } => {
                &&& r is Some
                &&& r->0.failure is None
                &&& r->0.ignored == ignored
                &&& r->0.document is Some
                &&& final(opened)@ == old(opened)@.push(
                    (r->0.document->0.id@, path@, Remembrance::Remembered),
                )
                &&& r->0.document->0.name@ == last_segment(path@)
            },
            Dropped::NotAPdf { ignored } => {
                &&& r is Some
                &&& r->0.document is None
                &&& r->0.ignored == ignored
                &&& r->0.failure is Some
                &&& r->0.failure->0.situation@ == "notAPdf"@
                &&& final(opened)@ == old(opened)@
            },
            Dropped::Unreadable { detail, ignored } => {
                &&& r is Some
                &&& r->0.document is None
                &&& r->0.ignored == ignored
                &&& r->0.failure is Some
                &&& r->0.failure->0.situation@ == "droppedFileUnreadable"@
                &&& r->0.failure->0.detail@ == detail@
                &&& final(opened)@ == old(opened)@
            },
        },
{
    match dropped {
        Dropped::Nothing => None,
        Dropped::Opened { path, modified, ignored } => Some(
            DroppedDocumentView {
                document: Some(told_as_opened(PortalDocument::opened(path.as_str()), modified, opened)),
                failure: None,
                ignored,
            },
        ),
        Dropped::NotAPdf { ignored } => Some(
            DroppedDocumentView {
                document: None,
                failure: Some(
                    Failure::new("notAPdf", string_of(&chars_of("el documento no es un PDF"))),
                ),
                ignored,
            },
        ),
        Dropped::Unreadable { detail, ignored } => Some(
            DroppedDocumentView {
                document: None,
                failure: Some(Failure::new("droppedFileUnreadable", detail)),
                ignored,
            },
        ),
    }
}

/// The document the person has in hand, checked against the session's
/// registry.
#[derive(Clone, Debug)]
pub struct DocumentInHand {
    id: String,
    document: PortalDocument,
    remembrance: Remembrance,
}

impl DocumentInHand {
    pub closed spec fn id_view(&self) -> Seq<char> {
        self.id@
    }

    pub closed spec fn path_view(&self) -> Seq<char> {
        self.document.path@
    }

    pub closed spec fn remembrance_view(&self) -> Remembrance {
        self.remembrance
    }

    /// The document under that identifier, if this session opened it.
    pub fn taken(opened: &OpenedDocuments, id: &str) -> (r: Result<DocumentInHand, Failure>)
        ensures
            match r {
                Ok(d) => opened_under(opened@, id@) == Some((d.path_view(), d.remembrance_view()))
                    && d.id_view() == id@,
                Err(f) => opened_under(opened@, id@) is None && f.situation@ == "documentUnreadable"@,
            },
    {
        let document = opened_document(opened, id)?;
        let remembrance = match opened.remembrance(id) {
            Some(r) => r,
            None => Remembrance::Unrecorded,
        };
        Ok(DocumentInHand { id: id.to_owned(), document, remembrance })
    }

    pub fn id(&self) -> (i: &str)
        ensures
            i@ == self.id_view(),
    {
        self.id.as_str()
    }

    pub fn document(&self) -> (d: &PortalDocument)
        ensures
            d.path@ == self.path_view(),
    {
        &self.document
    }

    pub fn reading_path(&self) -> (p: &str)
        ensures
            p@ == self.path_view(),
    {
        self.document.reading_path()
    }

    /// Whether it leaves a row among the recent documents.
    pub fn is_remembered(&self) -> (r: bool)
        ensures
            r == (self.remembrance_view() == Remembrance::Remembered),
    {
        self.remembrance == Remembrance::Remembered
    }
}

/// Where a signed document would land, as the window is told: the folder by
/// its name, the file name it would get, and whether it can be written. A
/// folder that is missing or cannot be written is no failure here: it is a
/// destination told as not writable.
#[derive(Clone, Debug, PartialEq)]
pub struct DestinationView {
    pub folder: String,
    pub name: Option<String>,
    pub writable: bool,
}

/// Where the signed document would land, told without a path: the folder
/// chosen, or the documents folder, checked by `check`, and the name the
/// destination would give the document.
pub fn where_it_lands<C, N>(
    configuration: &Configuration,
    documents_folder: &str,
    document: &PortalDocument,
    check: C,
    landing_for: N,
) -> (v: DestinationView) where
    C: FnOnce(&DestinationFolder) -> bool,
    N: FnOnce(&DestinationFolder, &PortalDocument) -> Option<String>,

    requires
        forall|f: &DestinationFolder| check.requires((f,)),
        forall|f: &DestinationFolder, d: &PortalDocument| landing_for.requires((f, d)),
    ensures
        v.folder@ == last_segment(chosen_path(*configuration, documents_folder@)),
        !v.writable ==> v.name is None,
        v.name matches Some(n) ==> !n@.contains('/'),
        answered_for(check, chosen_path(*configuration, documents_folder@), v.writable),
        v.writable ==> exists|f: &DestinationFolder, d: &PortalDocument, landing: Option<String>|
            f.path@ == chosen_path(*configuration, documents_folder@) && *d == *document
                && #[trigger] landing_for.ensures((f, d), landing) && match landing {
                Some(l) => (last_segment(l@).len() == 0 ==> v.name is None) && (last_segment(l@).len() > 0
                    ==> (v.name matches Some(n) && n@ == last_segment(l@))),
                None => v.name is None,
            },
{
    let chosen = chosen_folder(configuration, documents_folder);
    let there = check(&chosen);
    assert(check.ensures((&chosen,), there));
    if !there {
        return DestinationView { folder: chosen.name(), name: None, writable: false };
    }
    let landing = landing_for(&chosen, document);
    assert(landing_for.ensures((&chosen, document), landing));
    let name = match landing {
        Some(landing) => {
            let segment = name_in(&chars_of(landing.as_str()));
            proof {
                lemma_no_slash_in_the_last_segment(landing@);
            }
            if segment.len() == 0 {
                None
            } else {
                Some(string_of(&segment))
            }
        },
        None => None,
    };
    DestinationView { folder: chosen.name(), name, writable: true }
}

/// The folder the state kept notes as the last one opened, if any.
pub open spec fn noted_folder(memory: Memory) -> Option<Seq<char>> {
    match memory.kept_state() {
        Some(state) => state.last_open_folder,
        None => None,
    }
}

/// Whether asking about this folder may have answered `there`.
pub open spec fn answered<D: FnOnce(&str) -> bool>(is_dir: D, folder: Seq<char>, there: bool) -> bool {
    exists|p: &str| p@ == folder && #[trigger] is_dir.ensures((p,), there)
}

/// Whether asking about this destination may have answered `there`.
pub open spec fn answered_for<C: FnOnce(&DestinationFolder) -> bool>(
    check: C,
    folder: Seq<char>,
    there: bool,
) -> bool {
    exists|f: &DestinationFolder| f.path@ == folder && #[trigger] check.ensures((f,), there)
}

/// The last folder noted, if it is still there: a folder that was removed
/// or lived on a disk no longer mounted is no place to start from.
pub fn remembered_folder<D>(memory: &Memory, is_dir: D) -> (r: Option<String>) where D: FnOnce(&str) -> bool,
    requires
        forall|p: &str| is_dir.requires((p,)),
    ensures
        match r {
            Some(folder) => noted_folder(*memory) == Some(folder@) && answered(is_dir, folder@, true),
            None => match noted_folder(*memory) {
                Some(folder) => answered(is_dir, folder, false),
                None => true,
            },
        },
{
    let state = memory.state()?;
    match state.last_open_folder {
        Some(folder) => {
            let asked = folder.as_str();
            let there = is_dir(asked);
            assert(is_dir.ensures((asked,), there));
            if there {
                Some(folder)
            } else {
                None
            }
        },
        None => None,
    }
}

/// Where the dialog that opens a document starts: the last folder noted if
/// it is still there, and otherwise the destination folder if it is there;
/// nothing is ever created.
pub fn starting_folder<D, C>(
    memory: &Memory,
    configuration: &Configuration,
    documents_folder: &str,
    is_dir: D,
    check: C,
) -> (r: Option<String>) where
    D: FnOnce(&str) -> bool,
    C: FnOnce(&DestinationFolder) -> bool,

    requires
        forall|p: &str| is_dir.requires((p,)),
        forall|f: &DestinationFolder| check.requires((f,)),
    ensures
        ({
            let destination = chosen_path(*configuration, documents_folder@);
            let gone = match noted_folder(*memory) {
                Some(folder) => answered(is_dir, folder, false),
                None => true,
            };
            match r {
                Some(folder) => (noted_folder(*memory) == Some(folder@) && answered(is_dir, folder@, true))
                    || (gone && folder@ == destination && answered_for(check, destination, true)),
                None => gone && answered_for(check, destination, false),
            }
        }),
{
    if let Some(remembered) = remembered_folder(memory, is_dir) {
        return Some(remembered);
    }
    let folder = chosen_folder(configuration, documents_folder);
    let there = check(&folder);
    assert(check.ensures((&folder,), there));
    if there {
        Some(folder.path().to_owned())
    } else {
        None
    }
}

} // verus!
