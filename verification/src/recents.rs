//! The tray of recent documents: ten rows at most, one per path, the most
//! recent first; from the state on disk to the window and back.
use vstd::prelude::*;

use crate::configuration::{last_segment, name_in, Configuration};
use crate::documents::{OpenedDocuments, PortalDocument};
use crate::memory::{Memory, State, StateV};
use crate::situations::Failure;
use crate::text::{chars_of, same_text, string_of};

verus! {

/// How many rows the tray keeps.
pub const CAPACITY: usize = 10;

/// What the tray tells of a document.
#[derive(Clone, Copy, Debug, PartialEq, Eq, Structural)]
pub enum Badge {
    Unsigned,
    Signed,
}

/// A row of the tray as it is kept: by canonical path, which never crosses
/// to the window.
#[derive(Clone, Debug, PartialEq)]
pub struct RecentDocument {
    pub path: String,
    pub name: String,
    pub badge: Badge,
    pub modified: Option<u64>,
    pub last_used: u64,
}

/// A row as a plain value.
pub type RecentView = (Seq<char>, Seq<char>, Badge, Option<u64>, u64);

impl View for RecentDocument {
    type V = RecentView;

    open spec fn view(&self) -> RecentView {
        (self.path@, self.name@, self.badge, self.modified, self.last_used)
    }
}

impl RecentDocument {
    pub fn copied(&self) -> (r: RecentDocument)
        ensures
            r == *self,
    {
        RecentDocument {
            path: self.path.clone(),
            name: self.name.clone(),
            badge: self.badge,
            modified: self.modified,
            last_used: self.last_used,
        }
    }
}

/// The badge the first row of this path carries; `Unsigned` for a path the
/// tray does not know.
pub open spec fn badge_of(rows: Seq<RecentView>, path: Seq<char>) -> Badge
    decreases rows.len(),
{
    if rows.len() == 0 {
        Badge::Unsigned
    } else if rows[0].0 == path {
        rows[0].2
    } else {
        badge_of(rows.drop_first(), path)
    }
}

proof fn lemma_badge_of(rows: Seq<RecentView>, path: Seq<char>, at: int)
    requires
        0 <= at <= rows.len(),
        forall|j: int| 0 <= j < at ==> (#[trigger] rows[j]).0 != path,
        at < rows.len() ==> rows[at].0 == path,
    ensures
        badge_of(rows, path) == if at < rows.len() { rows[at].2 } else { Badge::Unsigned },
    decreases rows.len(),
{
    if rows.len() > 0 && at > 0 {
        assert forall|j: int| 0 <= j < at - 1 implies (#[trigger] rows.drop_first()[j]).0 != path by {
            assert(rows.drop_first()[j] == rows[j + 1]);
        }
        lemma_badge_of(rows.drop_first(), path, at - 1);
    }
}

/// The rows as plain values.
pub open spec fn tray_view(rows: Seq<RecentDocument>) -> Seq<RecentView> {
    rows.map_values(|r: RecentDocument| r@)
}

/// A copy of the rows.
pub fn copy_tray(rows: &Vec<RecentDocument>) -> (r: Vec<RecentDocument>)
    ensures
        r@ == rows@,
{
    let mut r: Vec<RecentDocument> = Vec::new();
    let mut k: usize = 0;
    while k < rows.len()
        invariant
            0 <= k <= rows.len(),
            r@ == rows@.take(k as int),
        decreases rows.len() - k,
    {
        r.push(rows[k].copied());
        assert(r@ =~= rows@.take(k + 1));
        k = k + 1;
    }
    assert(rows@.take(k as int) =~= rows@);
    r
}

/// The rows whose path is not this one, in order.
pub open spec fn without(rows: Seq<RecentView>, path: Seq<char>) -> Seq<RecentView>
    decreases rows.len(),
{
    if rows.len() == 0 {
        Seq::empty()
    } else if rows.last().0 == path {
        without(rows.drop_last(), path)
    } else {
        without(rows.drop_last(), path).push(rows.last())
    }
}

/// The tray once a row is noted: the row first, no other row with its
/// path, and no more rows than the tray holds.
pub open spec fn noted(rows: Seq<RecentView>, row: RecentView) -> Seq<RecentView> {
    let all = seq![row] + without(rows, row.0);
    if all.len() > CAPACITY {
        all.take(CAPACITY as int)
    } else {
        all
    }
}

/// Ten rows at most, one per path.
pub open spec fn tray_well_formed(rows: Seq<RecentView>) -> bool {
    &&& rows.len() <= CAPACITY
    &&& forall|i: int, j: int| 0 <= i < j < rows.len() ==> (#[trigger] rows[i]).0 != (#[trigger] rows[j]).0
}

proof fn lemma_without(rows: Seq<RecentView>, path: Seq<char>)
    ensures
        without(rows, path).len() <= rows.len(),
        forall|i: int| 0 <= i < without(rows, path).len() ==> (#[trigger] without(rows, path)[i]).0 != path
            && rows.contains(without(rows, path)[i]),
        (forall|i: int, j: int| 0 <= i < j < rows.len() ==> (#[trigger] rows[i]).0 != (#[trigger] rows[j]).0)
            ==> (forall|i: int, j: int| 0 <= i < j < without(rows, path).len() ==> (#[trigger] without(rows, path)[i]).0
            != (#[trigger] without(rows, path)[j]).0),
    decreases rows.len(),
{
    if rows.len() > 0 {
        let init = rows.drop_last();
        lemma_without(init, path);
        let w = without(init, path);
        assert forall|i: int| 0 <= i < without(rows, path).len() implies (#[trigger] without(rows, path)[i]).0 != path
            && rows.contains(without(rows, path)[i]) by {
            if i < w.len() {
                assert(without(rows, path)[i] == w[i]);
                assert(init.contains(w[i]));
                let k = choose|k: int| 0 <= k < init.len() && init[k] == w[i];
                assert(rows[k] == w[i]);
            } else {
                assert(rows[rows.len() - 1] == rows.last());
            }
        }
        if forall|i: int, j: int| 0 <= i < j < rows.len() ==> (#[trigger] rows[i]).0 != (#[trigger] rows[j]).0 {
            assert forall|i: int, j: int| 0 <= i < j < init.len() implies (#[trigger] init[i]).0 != (#[trigger] init[j]).0 by {
                assert(init[i] == rows[i]);
                assert(init[j] == rows[j]);
            }
            assert forall|i: int, j: int| 0 <= i < j < without(rows, path).len() implies (#[trigger] without(rows, path)[i]).0
                != (#[trigger] without(rows, path)[j]).0 by {
                if j >= w.len() {
                    assert(without(rows, path)[j] == rows.last());
                    assert(without(rows, path)[i] == w[i]);
                    assert(init.contains(w[i]));
                    let k = choose|k: int| 0 <= k < init.len() && init[k] == w[i];
                    assert(rows[k] == w[i]);
                    assert(rows[rows.len() - 1] == rows.last());
                } else {
                    assert(without(rows, path)[i] == w[i]);
                    assert(without(rows, path)[j] == w[j]);
                }
            }
        }
    }
}

/// Noting a row keeps the tray well formed.
pub proof fn noting_keeps_the_tray(rows: Seq<RecentView>, row: RecentView)
    requires
        tray_well_formed(rows),
    ensures
        tray_well_formed(noted(rows, row)),
        noted(rows, row)[0] == row,
{
    lemma_without(rows, row.0);
    let w = without(rows, row.0);
    let all = seq![row] + w;
    assert forall|i: int, j: int| 0 <= i < j < all.len() implies (#[trigger] all[i]).0 != (#[trigger] all[j]).0 by {
        if i == 0 {
            assert(all[j] == w[j - 1]);
        } else {
            assert(all[i] == w[i - 1]);
            assert(all[j] == w[j - 1]);
        }
    }
    if all.len() > CAPACITY {
        let kept = all.take(CAPACITY as int);
        assert forall|i: int, j: int| 0 <= i < j < kept.len() implies (#[trigger] kept[i]).0 != (#[trigger] kept[j]).0 by {
            assert(kept[i] == all[i]);
            assert(kept[j] == all[j]);
        }
    }
}

/// Noting the same document twice leaves one row for it, the first.
pub proof fn a_document_has_one_row(rows: Seq<RecentView>, row: RecentView, again: RecentView)
    requires
        tray_well_formed(rows),
        again.0 == row.0,
    ensures
        noted(noted(rows, row), again)[0] == again,
        forall|i: int| 1 <= i < noted(noted(rows, row), again).len() ==> (#[trigger] noted(noted(rows, row), again)[i]).0
            != row.0,
{
    noting_keeps_the_tray(rows, row);
    noting_keeps_the_tray(noted(rows, row), again);
    lemma_without(noted(rows, row), again.0);
    let w = without(noted(rows, row), again.0);
    let all = seq![again] + w;
    assert forall|i: int| 1 <= i < noted(noted(rows, row), again).len() implies (#[trigger] noted(
        noted(rows, row),
        again,
    )[i]).0 != row.0 by {
        assert(noted(noted(rows, row), again)[i] == all[i]);
        assert(all[i] == w[i - 1]);
    }
}

/// The rows without this path.
fn rows_without(rows: &Vec<RecentDocument>, path: &str) -> (r: Vec<RecentDocument>)
    ensures
        tray_view(r@) == without(tray_view(rows@), path@),
{
    let mut r: Vec<RecentDocument> = Vec::new();
    let mut k: usize = 0;
    while k < rows.len()
        invariant
            0 <= k <= rows.len(),
            tray_view(r@) == without(tray_view(rows@.take(k as int)), path@),
        decreases rows.len() - k,
    {
        assert(tray_view(rows@.take(k + 1)).drop_last() =~= tray_view(rows@.take(k as int)));
        assert(tray_view(rows@.take(k + 1)).last() == rows@[k as int]@);
        if !same_text(rows[k].path.as_str(), path) {
            let ghost before = r@;
            r.push(rows[k].copied());
            assert(tray_view(r@) =~= tray_view(before).push(rows@[k as int]@));
        }
        k = k + 1;
    }
    assert(rows@.take(k as int) =~= rows@);
    r
}

/// Notes a row in the tray.
pub fn record(rows: &Vec<RecentDocument>, row: RecentDocument) -> (r: Vec<RecentDocument>)
    ensures
        tray_view(r@) == noted(tray_view(rows@), row@),
{
    let rest = rows_without(rows, row.path.as_str());
    let ghost first = row@;
    let mut r: Vec<RecentDocument> = Vec::new();
    r.push(row);
    let mut k: usize = 0;
    while k < rest.len() && r.len() < CAPACITY
        invariant
            0 <= k <= rest.len(),
            r@.len() == k + 1,
            r@.len() <= CAPACITY,
            tray_view(r@) == seq![first] + tray_view(rest@).take(k as int),
        decreases rest.len() - k,
    {
        let ghost before = r@;
        r.push(rest[k].copied());
        assert(tray_view(r@) =~= tray_view(before).push(rest@[k as int]@));
        assert(tray_view(rest@)[k as int] == rest@[k as int]@);
        assert(seq![first] + tray_view(rest@).take(k + 1) =~= (seq![first] + tray_view(rest@).take(k as int)).push(
            tray_view(rest@)[k as int],
        ));
        k = k + 1;
    }
    proof {
        let all = seq![first] + tray_view(rest@);
        if k == rest.len() {
            assert(tray_view(rest@).take(k as int) =~= tray_view(rest@));
            assert(tray_view(r@) =~= all);
        } else {
            assert(r@.len() == CAPACITY);
            assert(tray_view(r@) =~= all.take(CAPACITY as int));
        }
    }
    r
}

/// Takes the row of this path out of the tray.
pub fn forgotten(rows: &Vec<RecentDocument>, path: &str) -> (r: Vec<RecentDocument>)
    ensures
        tray_view(r@) == without(tray_view(rows@), path@),
{
    rows_without(rows, path)
}

/// The row of this path, if the tray has one.
pub fn entry(rows: &Vec<RecentDocument>, path: &str) -> (r: Option<RecentDocument>)
    ensures
        match r {
            Some(row) => exists|i: int| 0 <= i < rows@.len() && rows@[i] == row && row.path@ == path@ && forall|j: int|
                0 <= j < i ==> (#[trigger] rows@[j]).path@ != path@,
            None => forall|i: int| 0 <= i < rows@.len() ==> (#[trigger] rows@[i]).path@ != path@,
        },
        badge_of(tray_view(rows@), path@) == match r {
            Some(row) => row.badge,
            None => Badge::Unsigned,
        },
{
    let mut k: usize = 0;
    while k < rows.len()
        invariant
            0 <= k <= rows.len(),
            forall|i: int| 0 <= i < k ==> (#[trigger] rows@[i]).path@ != path@,
        decreases rows.len() - k,
    {
        if same_text(rows[k].path.as_str(), path) {
            proof {
                lemma_badge_of(tray_view(rows@), path@, k as int);
            }
            return Some(rows[k].copied());
        }
        k = k + 1;
    }
    proof {
        lemma_badge_of(tray_view(rows@), path@, rows@.len() as int);
    }
    None
}

/// A row as the window receives it: by identifier, with its availability
/// measured now.
#[derive(Clone, Debug, PartialEq)]
pub struct RecentDocumentView {
    pub id: String,
    pub name: String,
    pub badge: Badge,
    pub modified: Option<u64>,
    pub last_used: u64,
    pub available: bool,
}

/// The path of the document opened under an identifier; empty for none.
pub open spec fn path_opened_under(entries: Seq<(Seq<char>, Seq<char>, crate::documents::Remembrance)>, id: Seq<char>) -> Seq<char> {
    match crate::documents::opened_under(entries, id) {
        Some(found) => found.0,
        None => Seq::empty(),
    }
}

/// The tray the memory keeps; empty when no state is kept.
pub open spec fn kept_tray(memory: Memory) -> Seq<RecentView> {
    match memory.kept_state() {
        Some(kept) => kept.recents,
        None => Seq::empty(),
    }
}

/// The state kept, or the one of a first run if none could be read.
fn loaded_state(memory: &Memory) -> (s: State)
    ensures
        memory.kept_state() matches Some(kept) ==> crate::memory::state_view(s) == kept,
        memory.kept_state() is None ==> s.recents@.len() == 0 && s.certificate is None
            && s.last_open_folder is None,
{
    match memory.state() {
        Some(state) => state,
        None => State::empty(),
    }
}

/// The identifier a path crosses by: the one it was last opened under, or
/// a new one.
fn identifier_for(path: &str, opened: &mut OpenedDocuments) -> (id: String)
    requires
        old(opened).well_formed(),
        old(opened).minted() < u64::MAX,
    ensures
        final(opened).well_formed(),
        final(opened).minted() <= old(opened).minted() + 1,
        match crate::documents::last_opened_as(old(opened)@, path@) {
            Some(known) => id@ == known && *final(opened) == *old(opened),
            None => final(opened)@ == old(opened)@.push(
                (id@, path@, crate::documents::Remembrance::Remembered),
            ),
        },
{
    match opened.last_id_of(path) {
        Some(id) => id,
        None => opened.remember(PortalDocument::opened(path)),
    }
}

/// The whole tray, the most recent first, each row under an identifier and
/// with its availability measured now; no PDF is opened.
pub fn listed_rows<A>(memory: &Memory, opened: &mut OpenedDocuments, available: A) -> (rows: Vec<
    RecentDocumentView,
>) where A: Fn(&str) -> bool,
    requires
        old(opened).well_formed(),
        old(opened).minted() + CAPACITY < u64::MAX,
        forall|p: &str| available.requires((p,)),
        memory.kept_state() matches Some(kept) ==> kept.recents.len() <= CAPACITY,
    ensures
        final(opened).well_formed(),
        rows@.len() == match memory.kept_state() {
            Some(kept) => kept.recents.len(),
            None => 0,
        },
        forall|i: int| 0 <= i < rows@.len() ==> (#[trigger] rows@[i]).name@ == memory.kept_state()->0.recents[i].1
            && rows@[i].badge == memory.kept_state()->0.recents[i].2,
{
    let state = loaded_state(memory);
    let mut rows: Vec<RecentDocumentView> = Vec::new();
    let mut k: usize = 0;
    while k < state.recents.len()
        invariant
            0 <= k <= state.recents.len(),
            state.recents@.len() <= CAPACITY,
            memory.kept_state() matches Some(kept) ==> crate::memory::state_view(state) == kept,
            memory.kept_state() is None ==> state.recents@.len() == 0,
            opened.well_formed(),
            opened.minted() <= old(opened).minted() + k,
            old(opened).minted() + CAPACITY < u64::MAX,
            forall|p: &str| available.requires((p,)),
            rows@.len() == k,
            forall|i: int| 0 <= i < k ==> (#[trigger] rows@[i]).name@ == state.recents@[i].name@ && rows@[i].badge
                == state.recents@[i].badge,
        decreases state.recents.len() - k,
    {
        let row = &state.recents[k];
        let id = identifier_for(row.path.as_str(), opened);
        let now_available = available(row.path.as_str());
        rows.push(
            RecentDocumentView {
                id,
                name: row.name.clone(),
                badge: row.badge,
                modified: row.modified,
                last_used: row.last_used,
                available: now_available,
            },
        );
        k = k + 1;
    }
    rows
}

/// Notes the document opened under this identifier in the tray and hands
/// its row back under the same identifier. The badge it gets is the one its
/// row already had, and `Unsigned` for a new one: only the postsign writes
/// `Signed`.
pub fn record_opened<S>(
    memory: &mut Memory,
    configuration: &Configuration,
    opened: &OpenedDocuments,
    id: &str,
    seen: S,
    available: bool,
) -> (r: Result<RecentDocumentView, Failure>) where S: FnOnce(&str, Badge) -> Result<RecentDocument, Failure>,
    requires
        forall|p: &str, b: Badge| seen.requires((p, b)),
    ensures
        r matches Ok(row) ==> {
            &&& row.id@ == id@
            &&& crate::documents::opened_under(opened@, id@) is Some
            &&& row.badge == badge_of(kept_tray(*old(memory)), path_opened_under(opened@, id@))
        },
        r is Ok && configuration.remember_activity ==> {
            &&& final(memory).kept_state() is Some
            &&& kept_tray(*final(memory)).len() > 0
            &&& kept_tray(*final(memory))[0].2 == r->Ok_0.badge
            &&& kept_tray(*final(memory))[0].1 == r->Ok_0.name@
        },
        crate::documents::opened_under(opened@, id@) is None ==> (r matches Err(f) && f.situation@
            == "documentUnreadable"@ && *final(memory) == *old(memory)),
        final(memory).kept_configuration() == old(memory).kept_configuration(),
        crate::documents::opened_under(opened@, id@) matches Some(found) ==> exists|
            p: &str,
            got: Result<RecentDocument, Failure>,
        |
            p@ == found.0 && #[trigger] seen.ensures((p, badge_of(kept_tray(*old(memory)), found.0)), got) && match got {
                Err(f) => r == Err::<RecentDocumentView, Failure>(f) && *final(memory) == *old(memory),
                Ok(row) => {
                    let badge = badge_of(kept_tray(*old(memory)), found.0);
                    &&& r matches Ok(told) && told.name@ == row.name@ && told.modified == row.modified
                        && told.last_used == row.last_used && told.available == available && told.badge == badge
                    &&& configuration.remember_activity ==> final(memory).kept_state() == Some(
                        noted_as(kept_or_first(*old(memory)), row@, badge),
                    )
                    &&& !configuration.remember_activity ==> final(memory).kept_state() is None
                },
            },
{
    let document = match opened.get(id) {
        Some(document) => document,
        None => {
            let mut detail = chars_of("no hay documento «");
            let mut name = chars_of(id);
            let mut tail = chars_of("»");
            detail.append(&mut name);
            detail.append(&mut tail);
            return Err(Failure::new("documentUnreadable", string_of(&detail)));
        },
    };
    let mut state = loaded_state(memory);
    proof {
        if memory.kept_state() is None {
            assert(tray_view(state.recents@) =~= Seq::<RecentView>::empty());
            assert(crate::memory::state_view(state).recents =~= kept_or_first(*memory).recents);
        }
        assert(crate::memory::state_view(state) == kept_or_first(*memory));
        assert(tray_view(state.recents@) == kept_tray(*memory));
    }
    let badge = match entry(&state.recents, document.reading_path()) {
        Some(row) => row.badge,
        None => Badge::Unsigned,
    };
    let path = document.reading_path();
    let got = seen(path, badge);
    assert(seen.ensures((path, badge), got));
    let ghost got_view = got;
    let mut row = match got {
        Ok(row) => row,
        Err(f) => {
            return Err(f);
        },
    };
    let ghost given = row;
    row.badge = badge;
    assert(row@ == as_badged(given@, badge));
    let told = RecentDocumentView {
        id: id.to_owned(),
        name: row.name.clone(),
        badge: row.badge,
        modified: row.modified,
        last_used: row.last_used,
        available,
    };
    state.recents = record(&state.recents, row);
    memory.remember_state(configuration, state);
    Ok(told)
}

/// Takes the row of the document opened under this identifier out of the
/// tray; it is the only thing that takes a row out.
pub fn forget<C>(memory: &mut Memory, configuration: &Configuration, opened: &OpenedDocuments, id: &str, canonical: C) -> (r:
    Result<(), Failure>) where C: FnOnce(&str) -> String,
    requires
        forall|p: &str| canonical.requires((p,)),
    ensures
        crate::documents::opened_under(opened@, id@) is None ==> (r matches Err(f) && f.situation@
            == "documentUnreadable"@ && *final(memory) == *old(memory)),
        final(memory).kept_configuration() == old(memory).kept_configuration(),
{
    let document = match opened.get(id) {
        Some(document) => document,
        None => {
            let mut detail = chars_of("no hay documento «");
            let mut name = chars_of(id);
            let mut tail = chars_of("»");
            detail.append(&mut name);
            detail.append(&mut tail);
            return Err(Failure::new("documentUnreadable", string_of(&detail)));
        },
    };
    let mut state = loaded_state(memory);
    let path = canonical(document.reading_path());
    state.recents = forgotten(&state.recents, path.as_str());
    memory.remember_state(configuration, state);
    Ok(())
}

/// The state kept, or the one of a first run.
pub open spec fn kept_or_first(memory: Memory) -> StateV {
    match memory.kept_state() {
        Some(kept) => kept,
        None => StateV { certificate: None, last_open_folder: None, recents: Seq::empty() },
    }
}

/// The row with the `Signed` badge.
pub open spec fn as_signed(row: RecentView) -> RecentView {
    as_badged(row, Badge::Signed)
}

/// The row with this badge.
pub open spec fn as_badged(row: RecentView, badge: Badge) -> RecentView {
    (row.0, row.1, badge, row.3, row.4)
}

/// The state once this row is noted in its tray with this badge.
pub open spec fn noted_as(state: StateV, row: RecentView, badge: Badge) -> StateV {
    StateV {
        certificate: state.certificate,
        last_open_folder: state.last_open_folder,
        recents: noted(state.recents, as_badged(row, badge)),
    }
}

/// The state once this row is noted signed in its tray.
pub open spec fn noted_signed(state: StateV, row: RecentView) -> StateV {
    StateV {
        certificate: state.certificate,
        last_open_folder: state.last_open_folder,
        recents: noted(state.recents, as_signed(row)),
    }
}

/// Notes the document just signed with the `Signed` badge: the only place
/// that writes it. A row that cannot be noted costs the row, never the
/// signature.
pub fn note_signed<S>(memory: &mut Memory, configuration: &Configuration, landing: &str, seen: S) where
    S: FnOnce(&str, Badge) -> Result<RecentDocument, Failure>,

    requires
        forall|p: &str, b: Badge| seen.requires((p, b)),
    ensures
        final(memory).kept_configuration() == old(memory).kept_configuration(),
        (exists|f: Failure| seen.ensures((landing, Badge::Signed), Err(f))) && *final(memory) == *old(memory)
            || exists|row: RecentDocument|
            {
                &&& seen.ensures((landing, Badge::Signed), Ok(row))
                &&& configuration.remember_activity ==> final(memory).kept_state() == Some(
                    noted_signed(kept_or_first(*old(memory)), row@),
                )
                &&& !configuration.remember_activity ==> final(memory).kept_state() is None
            },
{
    let mut row = match seen(landing, Badge::Signed) {
        Ok(row) => row,
        Err(f) => {
            assert(seen.ensures((landing, Badge::Signed), Err(f)));
            return ;
        },
    };
    let ghost given = row;
    row.badge = Badge::Signed;
    assert(row@ == as_signed(given@));
    let mut state = loaded_state(memory);
    proof {
        if memory.kept_state() is None {
            assert(tray_view(state.recents@) =~= Seq::<RecentView>::empty());
            assert(crate::memory::state_view(state).certificate is None);
            assert(crate::memory::state_view(state).last_open_folder is None);
            assert(crate::memory::state_view(state).recents =~= kept_or_first(*memory).recents);
        }
        assert(crate::memory::state_view(state) == kept_or_first(*memory));
    }
    state.recents = record(&state.recents, row);
    memory.remember_state(configuration, state);
    assert(seen.ensures((landing, Badge::Signed), Ok(given)));
}

/// Puts the document opened under this identifier in hand: a remembered
/// one is noted in the tray; a site's document is told without a row.
pub fn take<S>(
    memory: &mut Memory,
    configuration: &Configuration,
    opened: &OpenedDocuments,
    id: &str,
    seen: S,
    available: bool,
) -> (r: Result<RecentDocumentView, Failure>) where S: FnOnce(&str, Badge) -> Result<RecentDocument, Failure>,
    requires
        forall|p: &str, b: Badge| seen.requires((p, b)),
    ensures
        r matches Ok(row) ==> row.id@ == id@,
        crate::documents::opened_under(opened@, id@) is None ==> (r matches Err(f) && f.situation@
            == "documentUnreadable"@ && *final(memory) == *old(memory)),
        crate::documents::opened_under(opened@, id@) matches Some(found) && found.1
            == crate::documents::Remembrance::Unrecorded ==> *final(memory) == *old(memory) && (r matches Ok(
            row,
        ) ==> row.badge == Badge::Unsigned),
        final(memory).kept_configuration() == old(memory).kept_configuration(),
{
    let in_hand = crate::documents::DocumentInHand::taken(opened, id)?;
    if in_hand.is_remembered() {
        return record_opened(memory, configuration, opened, id, seen, available);
    }
    let row = seen(in_hand.reading_path(), Badge::Unsigned)?;
    Ok(
        RecentDocumentView {
            id: id.to_owned(),
            name: in_hand.document().name(),
            badge: Badge::Unsigned,
            modified: row.modified,
            last_used: row.last_used,
            available,
        },
    )
}

} // verus!
