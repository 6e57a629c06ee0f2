//! The certificates a token holds, how one is referred to, and the registry
//! of opaque handles the last listing handed out.
use vstd::prelude::*;

use crate::text::{hex, hex_of, lemma_hex_injective, lemma_pow16_bound, string_of};

verus! {

/// Where a certificate lives: module, token, label and `CKA_ID`.
#[derive(Clone, Debug)]
pub struct CertificateRef {
    pub module: String,
    pub token: String,
    pub label: String,
    pub cka_id: Vec<u8>,
}

/// A reference as a plain value: equal references are the same certificate.
pub type ReferenceView = (Seq<char>, Seq<char>, Seq<char>, Seq<u8>);

impl View for CertificateRef {
    type V = ReferenceView;

    open spec fn view(&self) -> ReferenceView {
        (self.module@, self.token@, self.label@, self.cka_id@)
    }
}

fn same_bytes(a: &[u8], b: &[u8]) -> (r: bool)
    ensures
        r == (a@ == b@),
{
    if a.len() != b.len() {
        return false;
    }
    let mut i: usize = 0;
    while i < a.len()
        invariant
            a.len() == b.len(),
            0 <= i <= a.len(),
            forall|k: int| 0 <= k < i ==> a@[k] == b@[k],
        decreases a.len() - i,
    {
        if a[i] != b[i] {
            return false;
        }
        i = i + 1;
    }
    assert(a@ =~= b@);
    true
}

/// A copy of these bytes.
pub fn copy_bytes(a: &[u8]) -> (r: Vec<u8>)
    ensures
        r@ == a@,
{
    let mut r: Vec<u8> = Vec::new();
    let mut i: usize = 0;
    while i < a.len()
        invariant
            0 <= i <= a.len(),
            r@ =~= a@.take(i as int),
        decreases a.len() - i,
    {
        r.push(a[i]);
        i = i + 1;
    }
    assert(a@.take(i as int) =~= a@);
    r
}

impl CertificateRef {
    /// A copy naming the same certificate.
    pub fn copied(&self) -> (r: CertificateRef)
        ensures
            r@ == self@,
    {
        CertificateRef {
            module: self.module.clone(),
            token: self.token.clone(),
            label: self.label.clone(),
            cka_id: copy_bytes(&self.cka_id),
        }
    }

    pub fn new(module: &str, token: &str, label: &str, cka_id: Vec<u8>) -> (r: CertificateRef)
        ensures
            r@ == (module@, token@, label@, cka_id@),
    {
        CertificateRef {
            module: module.to_owned(),
            token: token.to_owned(),
            label: label.to_owned(),
            cka_id,
        }
    }

    pub fn label(&self) -> (l: &str)
        ensures
            l@ == self.label@,
    {
        self.label.as_str()
    }

    pub fn cka_id(&self) -> (id: &[u8])
        ensures
            id@ == self.cka_id@,
    {
        self.cka_id.as_slice()
    }

    /// Whether both name the same certificate.
    pub fn is_the_same_as(&self, other: &CertificateRef) -> (r: bool)
        ensures
            r == (self@ == other@),
    {
        self.module == other.module && self.token == other.token && self.label == other.label
            && same_bytes(&self.cka_id, &other.cka_id)
    }
}

/// What the token says of a certificate before anyone asks for the PIN.
#[derive(Clone, Copy, Debug, PartialEq, Eq, Structural)]
pub enum CertificateStatus {
    Valid { not_after: u64 },
    Expired { not_after: u64 },
    NotYetValid { not_before: u64 },
    Unreadable,
}

impl CertificateStatus {
    /// Only a certificate in force can sign.
    pub fn is_usable(&self) -> (r: bool)
        ensures
            r == (*self is Valid),
    {
        match self {
            CertificateStatus::Valid { .. } => true,
            _ => false,
        }
    }
}

/// A certificate of a token, with its DER and what was read of it.
#[derive(Clone, Debug)]
pub struct TokenCertificate {
    pub reference: CertificateRef,
    /// The store it was listed from, by the name the listing shows.
    pub store: String,
    pub der: Vec<u8>,
    pub subject: Option<String>,
    pub issuer: Option<String>,
    pub status: CertificateStatus,
}

impl TokenCertificate {
    pub fn new(
        reference: CertificateRef,
        store: String,
        der: Vec<u8>,
        subject: Option<String>,
        issuer: Option<String>,
        status: CertificateStatus,
    ) -> (c: TokenCertificate)
        ensures
            c.reference == reference,
            c.store == store,
            c.der == der,
            c.subject == subject,
            c.issuer == issuer,
            c.status == status,
    {
        TokenCertificate { reference, store, der, subject, issuer, status }
    }

    /// A copy of the certificate and of what was read of it.
    pub fn copied(&self) -> (c: TokenCertificate)
        ensures
            c.reference@ == self.reference@,
            c.store@ == self.store@,
            c.der@ == self.der@,
            c.status == self.status,
    {
        TokenCertificate {
            reference: self.reference.copied(),
            store: self.store.clone(),
            der: copy_bytes(&self.der),
            subject: match &self.subject {
                Some(s) => Some(s.clone()),
                None => None,
            },
            issuer: match &self.issuer {
                Some(s) => Some(s.clone()),
                None => None,
            },
            status: self.status,
        }
    }

    pub fn reference(&self) -> (r: &CertificateRef)
        ensures
            r == &self.reference,
    {
        &self.reference
    }

    pub fn der(&self) -> (d: &[u8])
        ensures
            d@ == self.der@,
    {
        self.der.as_slice()
    }

    pub fn status(&self) -> (s: CertificateStatus)
        ensures
            s == self.status,
    {
        self.status
    }
}

/// The handle a listing hands out for its `n`-th certificate ever.
pub open spec fn handle_for(n: nat) -> Seq<char> {
    hex(n, 32)
}

/// The handles handed out by the last listing, and the certificate behind
/// each.
pub struct ListedCertificates {
    entries: Vec<(String, CertificateRef)>,
    serials: Vec<u64>,
    minted: u64,
}

impl View for ListedCertificates {
    type V = Seq<(Seq<char>, ReferenceView)>;

    closed spec fn view(&self) -> Seq<(Seq<char>, ReferenceView)> {
        self.entries@.map_values(|e: (String, CertificateRef)| (e.0@, e.1@))
    }
}

/// The certificate a handle stands for among these entries, the first one
/// that carries it.
pub open spec fn lookup(entries: Seq<(Seq<char>, ReferenceView)>, handle: Seq<char>) -> Option<
    ReferenceView,
>
    decreases entries.len(),
{
    if entries.len() == 0 {
        None
    } else if entries[0].0 == handle {
        Some(entries[0].1)
    } else {
        lookup(entries.drop_first(), handle)
    }
}

proof fn lemma_lookup_at(entries: Seq<(Seq<char>, ReferenceView)>, k: int)
    requires
        0 <= k < entries.len(),
        forall|i: int, j: int| 0 <= i < j < entries.len() ==> #[trigger] entries[i].0 != #[trigger] entries[j].0,
    ensures
        lookup(entries, entries[k].0) == Some(entries[k].1),
    decreases entries.len(),
{
    if k > 0 {
        let rest = entries.drop_first();
        assert(entries[0].0 != entries[k].0);
        assert forall|i: int, j: int| 0 <= i < j < rest.len() implies #[trigger] rest[i].0 != #[trigger] rest[j].0 by {
            assert(rest[i] == entries[i + 1] && rest[j] == entries[j + 1]);
        }
        lemma_lookup_at(rest, k - 1);
        assert(rest[k - 1] == entries[k]);
    }
}

proof fn lemma_lookup_found(entries: Seq<(Seq<char>, ReferenceView)>, handle: Seq<char>)
    ensures
        lookup(entries, handle) is Some ==> exists|j: int| 0 <= j < entries.len() && entries[j].0 == handle,
    decreases entries.len(),
{
    if entries.len() > 0 && entries[0].0 != handle {
        lemma_lookup_found(entries.drop_first(), handle);
        if lookup(entries, handle) is Some {
            let j = choose|j: int| 0 <= j < entries.drop_first().len() && entries.drop_first()[j].0 == handle;
            assert(entries[j + 1].0 == handle);
        }
    }
}

proof fn lemma_lookup_absent(entries: Seq<(Seq<char>, ReferenceView)>, handle: Seq<char>)
    ensures
        (forall|k: int| 0 <= k < entries.len() ==> (#[trigger] entries[k]).0 != handle) ==> lookup(entries, handle) is None,
    decreases entries.len(),
{
    if entries.len() > 0 {
        lemma_lookup_absent(entries.drop_first(), handle);
        if forall|k: int| 0 <= k < entries.len() ==> (#[trigger] entries[k]).0 != handle {
            assert forall|k: int| 0 <= k < entries.drop_first().len() implies (#[trigger] entries.drop_first()[k]).0 != handle by {
                assert(entries.drop_first()[k] == entries[k + 1]);
            }
        }
    }
}

impl ListedCertificates {
    /// Every handle of the registry is different from every other.
    pub closed spec fn well_formed(&self) -> bool {
        &&& self.entries.len() == self.serials.len()
        &&& forall|k: int|
            0 <= k < self.serials.len() ==> #[trigger] self.serials[k] < self.minted
                && self.entries[k].0@ == handle_for(self.serials[k] as nat)
        &&& forall|j: int, k: int|
            0 <= j < k < self.serials.len() ==> #[trigger] self.serials[j] < #[trigger] self.serials[k]
    }

    /// How many handles have been handed out so far.
    pub closed spec fn minted(&self) -> nat {
        self.minted as nat
    }

    pub fn new() -> (l: ListedCertificates)
        ensures
            l.well_formed(),
            l.minted() == 0,
            l@ == Seq::<(Seq<char>, ReferenceView)>::empty(),
    {
        let l = ListedCertificates { entries: Vec::new(), serials: Vec::new(), minted: 0 };
        assert(l@ =~= Seq::<(Seq<char>, ReferenceView)>::empty());
        l
    }

    /// Whether this many handles can still be minted: a machine limit that
    /// no listing reaches in practice.
    pub fn has_room_for(&self, count: usize) -> (r: bool)
        ensures
            r == (self.minted() + count <= u64::MAX),
    {
        count as u64 <= u64::MAX - self.minted
    }

    /// Every handle of a well-formed registry is different from every other.
    /// A handle of the listing finds the certificate it was given for.
    pub proof fn a_handle_finds_its_certificate(&self, k: int)
        requires
            self.well_formed(),
            0 <= k < self@.len(),
        ensures
            lookup(self@, self@[k].0) == Some(self@[k].1),
    {
        self.handles_are_distinct();
        lemma_lookup_at(self@, k);
    }

    pub proof fn handles_are_distinct(&self)
        requires
            self.well_formed(),
        ensures
            forall|j: int, k: int|
                0 <= j < k < self@.len() ==> #[trigger] self@[j].0 != #[trigger] self@[k].0,
    {
        assert forall|j: int, k: int| 0 <= j < k < self@.len() implies #[trigger] self@[j].0
            != #[trigger] self@[k].0 by {
            let a = self.serials[j] as nat;
            let b = self.serials[k] as nat;
            assert(self@[j].0 == self.entries[j].0@);
            assert(self@[k].0 == self.entries[k].0@);
            lemma_pow16_bound(32);
            if self@[j].0 == self@[k].0 {
                lemma_hex_injective(a, b, 32);
            }
        }
    }

    /// A handle of an earlier listing never stands for a certificate of a
    /// later one.
    pub proof fn a_new_listing_refuses_the_handles_of_the_old(before: ListedCertificates, after: ListedCertificates, handle: Seq<char>)
        requires
            before.well_formed(),
            after.well_formed(),
            forall|j: int, k: int|
                0 <= j < before@.len() && 0 <= k < after@.len() ==> #[trigger] before@[j].0 != #[trigger] after@[k].0,
            lookup(before@, handle) is Some,
        ensures
            lookup(after@, handle) is None,
    {
        lemma_lookup_found(before@, handle);
        let j = choose|j: int| 0 <= j < before@.len() && before@[j].0 == handle;
        lemma_lookup_absent(after@, handle);
    }

    /// Forgets the previous listing and hands out a fresh handle for each of
    /// these certificates, in their order.
    pub fn replace(&mut self, references: Vec<CertificateRef>) -> (handles: Vec<String>)
        requires
            old(self).well_formed(),
            old(self).minted() + references.len() <= u64::MAX,
        ensures
            final(self).well_formed(),
            final(self).minted() == old(self).minted() + references.len(),
            handles.len() == references.len(),
            final(self)@.len() == references.len(),
            forall|j: int, k: int|
                0 <= j < old(self)@.len() && 0 <= k < final(self)@.len() ==> #[trigger] old(self)@[j].0
                    != #[trigger] final(self)@[k].0,
            forall|k: int|
                0 <= k < references.len() ==> #[trigger] final(self)@[k] == (
                    handles[k]@,
                    references[k]@,
                ),
    {
        let mut entries: Vec<(String, CertificateRef)> = Vec::new();
        let mut serials: Vec<u64> = Vec::new();
        let mut handles: Vec<String> = Vec::new();
        let start = self.minted;
        let mut k: usize = 0;
        while k < references.len()
            invariant
                0 <= k <= references.len(),
                start + references.len() <= u64::MAX,
                entries.len() == k,
                serials.len() == k,
                handles.len() == k,
                forall|i: int|
                    0 <= i < k ==> #[trigger] serials[i] == start + i && entries[i].0@
                        == handle_for(serials[i] as nat) && handles[i]@ == entries[i].0@
                        && entries[i].1@ == references[i]@,
            decreases references.len() - k,
        {
            let serial: u64 = start + k as u64;
            let handle = string_of(&hex_of(serial, 32));
            entries.push((handle.clone(), references[k].copied()));
            serials.push(serial);
            handles.push(handle);
            k = k + 1;
        }
        let ghost es = entries@;
        let ghost ss = serials@;
        assert forall|i: int| 0 <= i < k implies es[i].0@ == handles[i]@ && es[i].1@
            == references[i]@ by {
            assert(ss[i] == start + i);
        }
        let ghost before = *self;
        self.entries = entries;
        self.serials = serials;
        self.minted = start + k as u64;
        assert forall|j: int, i: int| 0 <= j < before@.len() && 0 <= i < self@.len() implies #[trigger] before@[j].0
            != #[trigger] self@[i].0 by {
            let a = before.serials[j] as nat;
            let b = self.serials[i] as nat;
            assert(before@[j].0 == before.entries[j].0@);
            assert(self@[i].0 == self.entries[i].0@);
            assert(ss[i] == start + i);
            lemma_pow16_bound(32);
            if before@[j].0 == self@[i].0 {
                lemma_hex_injective(a, b, 32);
            }
        }
        assert forall|i: int| 0 <= i < references.len() implies #[trigger] self@[i] == (
            handles[i]@,
            references[i]@,
        ) by {
            assert(self@[i] == (self.entries[i].0@, self.entries[i].1@));
        }
        handles
    }

    /// The certificate behind a handle of the last listing.
    pub fn get(&self, handle: &str) -> (r: Option<CertificateRef>)
        ensures
            match r {
                Some(c) => lookup(self@, handle@) == Some(c@),
                None => lookup(self@, handle@) is None,
            },
    {
        let mut k: usize = 0;
        let wanted = handle.to_owned();
        assert(self@.skip(0) =~= self@);
        while k < self.entries.len()
            invariant
                0 <= k <= self.entries.len(),
                wanted@ == handle@,
                lookup(self@, handle@) == lookup(self@.skip(k as int), handle@),
            decreases self.entries.len() - k,
        {
            let rest = Ghost(self@.skip(k as int));
            assert(rest@[0] == (self.entries[k as int].0@, self.entries[k as int].1@));
            assert(rest@.drop_first() =~= self@.skip(k + 1));
            if self.entries[k].0 == wanted {
                return Some(self.entries[k].1.copied());
            }
            k = k + 1;
        }
        None
    }
}

} // verus!
