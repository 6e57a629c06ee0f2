//! Choosing a certificate of the token by its handle, and what the visible
//! signature stamps of it.
use vstd::prelude::*;
use x509_cert::der::Decode;

use crate::configuration::Configuration;
use crate::distinguished::{
    attribute, attribute_of, authority_of, holder_of, is_pseudonym, is_pseudonym_subject, issuer_of,
    or_empty,
};
use crate::memory::{state_view, Memory, State};
use crate::situations::{token_situation_name, Failure, TokenError, TokenSituation};
use crate::text::{chars_of, string_of};
use crate::token::{
    lookup, CertificateRef, CertificateStatus, ListedCertificates, ReferenceView, TokenCertificate,
};

verus! {

/// Where the first certificate with this reference stands.
pub open spec fn first_index(certificates: Seq<TokenCertificate>, wanted: ReferenceView) -> Option<
    int,
>
    decreases certificates.len(),
{
    if certificates.len() == 0 {
        None
    } else if certificates[0].reference@ == wanted {
        Some(0)
    } else {
        match first_index(certificates.drop_first(), wanted) {
            Some(i) => Some(i + 1),
            None => None,
        }
    }
}

proof fn lemma_first_index(certificates: Seq<TokenCertificate>, wanted: ReferenceView)
    ensures
        match first_index(certificates, wanted) {
            Some(i) => 0 <= i < certificates.len() && certificates[i].reference@ == wanted && forall|
                j: int,
            | 0 <= j < i ==> #[trigger] certificates[j].reference@ != wanted,
            None => forall|j: int|
                0 <= j < certificates.len() ==> #[trigger] certificates[j].reference@ != wanted,
        },
    decreases certificates.len(),
{
    if certificates.len() > 0 {
        lemma_first_index(certificates.drop_first(), wanted);
        assert forall|j: int| 1 <= j < certificates.len() implies #[trigger] certificates[j]
            == certificates.drop_first()[j - 1] by {}
    }
}

/// The certificate a handle of the last listing stands for, if the token
/// still holds it.
pub open spec fn behind(
    certificates: Seq<TokenCertificate>,
    listed: Seq<(Seq<char>, ReferenceView)>,
    handle: Seq<char>,
) -> Option<int> {
    match lookup(listed, handle) {
        None => None,
        Some(wanted) => first_index(certificates, wanted),
    }
}

/// The name of a status, as the detail of a refusal tells it.
pub open spec fn status_name(status: CertificateStatus) -> Seq<char> {
    match status {
        CertificateStatus::Valid { .. } => "Valid"@,
        CertificateStatus::Expired { .. } => "Expired"@,
        CertificateStatus::NotYetValid { .. } => "NotYetValid"@,
        CertificateStatus::Unreadable => "Unreadable"@,
    }
}

fn name_of_status(status: CertificateStatus) -> (r: Vec<char>)
    ensures
        r@ == status_name(status),
{
    match status {
        CertificateStatus::Valid { .. } => chars_of("Valid"),
        CertificateStatus::Expired { .. } => chars_of("Expired"),
        CertificateStatus::NotYetValid { .. } => chars_of("NotYetValid"),
        CertificateStatus::Unreadable => chars_of("Unreadable"),
    }
}

/// The certificate behind a handle of the current listing.
pub fn certificate_behind<'a>(
    certificates: &'a [TokenCertificate],
    handle: &str,
    listed: &ListedCertificates,
) -> (r: Result<&'a TokenCertificate, Failure>)
    ensures
        r is Ok <==> behind(certificates@, listed@, handle@) is Some,
        r matches Ok(c) ==> *c == certificates@[behind(certificates@, listed@, handle@)->0],
        r matches Err(f) ==> f.situation@ == "certificateNotFound"@ && match lookup(
            listed@,
            handle@,
        ) {
            None => f.detail@ == "el certificado elegido no es de la ultima busqueda"@,
            Some(wanted) => f.detail@ == "el token ya no tiene "@ + wanted.2,
        },
{
    let wanted = match listed.get(handle) {
        Some(wanted) => wanted,
        None => {
            return Err(
                Failure::new(
                    "certificateNotFound",
                    string_of(&chars_of("el certificado elegido no es de la ultima busqueda")),
                ),
            );
        },
    };
    let mut i: usize = 0;
    while i < certificates.len()
        invariant
            0 <= i <= certificates.len(),
            lookup(listed@, handle@) == Some(wanted@),
            forall|j: int| 0 <= j < i ==> #[trigger] certificates@[j].reference@ != wanted@,
        decreases certificates.len() - i,
    {
        if certificates[i].reference.is_the_same_as(&wanted) {
            proof {
                lemma_first_index(certificates@, wanted@);
            }
            return Ok(&certificates[i]);
        }
        i = i + 1;
    }
    proof {
        lemma_first_index(certificates@, wanted@);
    }
    let mut detail = chars_of("el token ya no tiene ");
    let mut label = chars_of(wanted.label());
    detail.append(&mut label);
    Err(Failure::new("certificateNotFound", string_of(&detail)))
}

/// The certificate behind a handle, checked again for being in force before
/// anyone is asked for the PIN.
pub fn usable_certificate<'a>(
    certificates: &'a [TokenCertificate],
    handle: &str,
    listed: &ListedCertificates,
) -> (r: Result<&'a TokenCertificate, Failure>)
    ensures
        r is Ok <==> (behind(certificates@, listed@, handle@) matches Some(i)
            && certificates@[i].status is Valid),
        r matches Ok(c) ==> *c == certificates@[behind(certificates@, listed@, handle@)->0],
        r matches Err(f) ==> f.situation@ == "certificateNotFound"@,
        forall|i: int|
            behind(certificates@, listed@, handle@) == Some(i) && !(certificates@[i].status is Valid)
                ==> (r matches Err(f) && f.detail@ == certificates@[i].reference.label@ + ": "@
                + status_name(certificates@[i].status)),
        behind(certificates@, listed@, handle@) is None ==> (r matches Err(f) && match lookup(listed@, handle@) {
            None => f.detail@ == "el certificado elegido no es de la ultima busqueda"@,
            Some(wanted) => f.detail@ == "el token ya no tiene "@ + wanted.2,
        }),
{
    let chosen = match certificate_behind(certificates, handle, listed) {
        Ok(chosen) => chosen,
        Err(f) => {
            return Err(f);
        },
    };
    let status = chosen.status();
    if !status.is_usable() {
        let mut detail = chars_of(chosen.reference().label());
        let mut colon = chars_of(": ");
        let mut name = name_of_status(status);
        detail.append(&mut colon);
        detail.append(&mut name);
        return Err(Failure::new("certificateNotFound", string_of(&detail)));
    }
    Ok(chosen)
}

/// What the visible signature stamps of a certificate.
#[derive(Clone, Debug, Default)]
pub struct StampedHolder {
    /// The whole `CN` of the subject.
    pub common_name: String,
    /// The issuing authority, the one the listing shows.
    pub issuer: String,
    /// Whether the certificate is a pseudonym one.
    pub pseudonym: bool,
}

/// A name as `Option<&str>`, borrowed from an `Option<String>`.
pub open spec fn name_view(name: Option<String>) -> Seq<char> {
    match name {
        Some(s) => s@,
        None => Seq::empty(),
    }
}

fn borrowed(name: &Option<String>) -> (r: Option<&str>)
    ensures
        or_empty(r) == name_view(*name),
{
    match name {
        Some(s) => Some(s.as_str()),
        None => None,
    }
}

/// What the box stamps of a certificate, read from what the token said of it.
pub fn stamped_holder_of(certificate: &TokenCertificate) -> (h: StampedHolder)
    ensures
        h.common_name@ == attribute_of("CN="@, name_view(certificate.subject)),
        h.issuer@ == authority_of(name_view(certificate.issuer)),
        h.pseudonym == is_pseudonym_subject(name_view(certificate.subject)),
{
    let subject = borrowed(&certificate.subject);
    let issuer = borrowed(&certificate.issuer);
    let text: &str = match subject {
        Some(s) => s,
        None => "",
    };
    proof {
        reveal_strlit("");
        if subject.is_none() {
            assert(text@ =~= Seq::<char>::empty());
        }
    }
    StampedHolder {
        common_name: attribute("CN=", text),
        issuer: issuer_of(issuer),
        pseudonym: is_pseudonym(subject),
    }
}

/// The OID of the subject public key algorithm the X.509 parser reads in a
/// DER, when it reads a certificate there.
pub uninterp spec fn public_key_algorithm_of(der: Seq<u8>) -> Option<Seq<char>>;

/// `x509_cert::Certificate::from_der`, keeping the dotted OID of the
/// subject's public key algorithm; nothing when the DER is not a
/// certificate. What the parser accepts is not stated here: it is named.
#[verifier::external_body]
fn public_key_algorithm(der: &[u8]) -> (oid: Option<String>)
    ensures
        match oid {
            Some(s) => public_key_algorithm_of(der@) == Some(s@),
            None => public_key_algorithm_of(der@) is None,
        },
{
    x509_cert::Certificate::from_der(der).ok().map(
        |read| read.tbs_certificate.subject_public_key_info.algorithm.oid.to_string(),
    )
}

/// The OID of rsaEncryption.
pub open spec fn rsa_encryption() -> Seq<char> {
    "1.2.840.113549.1.1.1"@
}

/// Whether the public key of the certificate is an RSA one.
pub fn is_rsa(certificate: &TokenCertificate) -> (r: bool)
    ensures
        r == (public_key_algorithm_of(certificate.der@) == Some(rsa_encryption())),
{
    match public_key_algorithm(certificate.der()) {
        Some(oid) => {
            let rsa = string_of(&chars_of("1.2.840.113549.1.1.1"));
            oid == rsa
        },
        None => false,
    }
}

/// The installed store holds at least one certificate and every key is RSA.
pub fn only_rsa_keys(found: &[TokenCertificate]) -> (r: Result<(), TokenError>)
    ensures
        r is Ok <==> (found@.len() > 0 && forall|k: int|
            0 <= k < found@.len() ==> public_key_algorithm_of(#[trigger] found@[k].der@) == Some(
                rsa_encryption(),
            )),
        r matches Err(e) ==> (found@.len() == 0 ==> e.situation == TokenSituation::Pkcs12Unreadable)
            && (found@.len() > 0 ==> e.situation == TokenSituation::KeyNotRsa),
{
    if found.len() == 0 {
        return Err(
            TokenError::new(
                TokenSituation::Pkcs12Unreadable,
                string_of(
                    &chars_of("el fichero no ha dejado ningun certificado con clave privada dentro"),
                ),
            ),
        );
    }
    let mut k: usize = 0;
    while k < found.len()
        invariant
            0 <= k <= found.len(),
            forall|j: int|
                0 <= j < k ==> public_key_algorithm_of(#[trigger] found@[j].der@) == Some(
                    rsa_encryption(),
                ),
        decreases found.len() - k,
    {
        if !is_rsa(&found[k]) {
            let mut detail = chars_of(found[k].reference.label());
            let mut tail = chars_of(": la clave no es RSA");
            detail.append(&mut tail);
            return Err(TokenError::new(TokenSituation::KeyNotRsa, string_of(&detail)));
        }
        k = k + 1;
    }
    Ok(())
}


/// The certificate remembered from the last session, if the state says one.
pub open spec fn remembered_in(memory: Memory) -> Option<ReferenceView> {
    match memory.kept_state() {
        Some(s) => s.certificate,
        None => None,
    }
}

/// The certificate remembered from the previous session, if the state holds
/// one.
pub fn remembered_certificate(memory: &Memory) -> (r: Option<CertificateRef>)
    ensures
        match r {
            Some(c) => remembered_in(*memory) == Some(c@),
            None => remembered_in(*memory) is None,
        },
{
    match memory.state() {
        Some(state) => state.certificate,
        None => None,
    }
}

/// Writes into the state the certificate just signed with.
pub fn remember_the_certificate(
    memory: &mut Memory,
    configuration: &Configuration,
    reference: &CertificateRef,
)
    ensures
        final(memory).kept_configuration() == old(memory).kept_configuration(),
        configuration.remember_activity ==> remembered_in(*final(memory)) == Some(reference@),
        configuration.remember_activity ==> match (old(memory).kept_state(), final(memory).kept_state()) {
            (Some(before), Some(after)) => after.last_open_folder == before.last_open_folder && after.recents
                == before.recents,
            (None, Some(after)) => after.last_open_folder is None && after.recents.len() == 0,
            _ => false,
        },
        !configuration.remember_activity ==> (final(memory).kept_state() is None
            || final(memory).kept_state() == old(memory).kept_state()),
{
    let mut state = match memory.state() {
        Some(state) => state,
        None => State::empty(),
    };
    if let Some(kept) = &state.certificate {
        if kept.is_the_same_as(reference) {
            if !configuration.remember_activity {
                assert(old(memory).kept_state() is Some);
            }
            return;
        }
    }
    state.certificate = Some(reference.copied());
    memory.remember_state(configuration, state);
}

/// A row of the listing as the window shows it.
#[derive(Clone, Debug, PartialEq)]
pub struct CertificateView {
    pub id: String,
    pub label: String,
    pub holder_name: String,
    pub id_number: String,
    pub issuer: String,
    pub store: String,
    pub status: CertificateStatus,
    pub remembered: bool,
}

/// A row as a plain value.
pub type RowView = (Seq<char>, Seq<char>, Seq<char>, Seq<char>, Seq<char>, Seq<char>, CertificateStatus, bool);

impl View for CertificateView {
    type V = RowView;

    open spec fn view(&self) -> RowView {
        (
            self.id@,
            self.label@,
            self.holder_name@,
            self.id_number@,
            self.issuer@,
            self.store@,
            self.status,
            self.remembered,
        )
    }
}

impl CertificateView {
    pub fn copied(&self) -> (c: CertificateView)
        ensures
            c@ == self@,
    {
        CertificateView {
            id: self.id.clone(),
            label: self.label.clone(),
            holder_name: self.holder_name.clone(),
            id_number: self.id_number.clone(),
            issuer: self.issuer.clone(),
            store: self.store.clone(),
            status: self.status,
            remembered: self.remembered,
        }
    }
}

/// The rows as plain values.
pub open spec fn rows_view(rows: Seq<CertificateView>) -> Seq<RowView> {
    rows.map_values(|r: CertificateView| r@)
}

/// A copy of the rows.
pub fn copy_rows(rows: &Vec<CertificateView>) -> (c: Vec<CertificateView>)
    ensures
        rows_view(c@) == rows_view(rows@),
{
    let mut c: Vec<CertificateView> = Vec::new();
    let mut k: usize = 0;
    while k < rows.len()
        invariant
            0 <= k <= rows.len(),
            c@.len() == k,
            forall|j: int| 0 <= j < k ==> #[trigger] c@[j]@ == rows@[j]@,
        decreases rows.len() - k,
    {
        c.push(rows[k].copied());
        k = k + 1;
    }
    assert(rows_view(c@) =~= rows_view(rows@));
    c
}

/// What a row says of a certificate and of its handle.
pub open spec fn row_of(
    row: CertificateView,
    certificate: TokenCertificate,
    handle: Seq<char>,
    remembered: Option<ReferenceView>,
) -> bool {
    &&& row.id@ == handle
    &&& row.label@ == certificate.reference.label@
    &&& row.holder_name@ == attribute_of("CN="@, name_view(certificate.subject))
    &&& row.id_number@ == attribute_of("SERIALNUMBER="@, name_view(certificate.subject))
    &&& row.issuer@ == authority_of(name_view(certificate.issuer))
    &&& row.store@ == certificate.store@
    &&& row.status == certificate.status
    &&& row.remembered == (remembered == Some(certificate.reference@))
}

/// The rows of a listing, with fresh handles and the selection remembered.
pub fn rows_of(found: Vec<TokenCertificate>, listed: &mut ListedCertificates, memory: &Memory) -> (rows:
    Vec<CertificateView>)
    requires
        old(listed).well_formed(),
        old(listed).minted() + found.len() <= u64::MAX,
    ensures
        final(listed).well_formed(),
        final(listed)@.len() == found.len(),
        rows.len() == found.len(),
        forall|k: int|
            0 <= k < found.len() ==> final(listed)@[k].1 == found[k].reference@ && row_of(
                #[trigger] rows[k],
                found[k],
                final(listed)@[k].0,
                remembered_in(*memory),
            ),
        forall|k: int|
            0 <= k < found.len() ==> lookup(final(listed)@, #[trigger] rows[k].id@) == Some(found[k].reference@),
{
    let remembered = remembered_certificate(memory);
    let mut references: Vec<CertificateRef> = Vec::new();
    let mut k: usize = 0;
    while k < found.len()
        invariant
            0 <= k <= found.len(),
            references.len() == k,
            forall|j: int| 0 <= j < k ==> #[trigger] references[j]@ == found[j].reference@,
        decreases found.len() - k,
    {
        references.push(found[k].reference.copied());
        k = k + 1;
    }
    let handles = listed.replace(references);
    let mut rows: Vec<CertificateView> = Vec::new();
    let mut i: usize = 0;
    while i < found.len()
        invariant
            0 <= i <= found.len(),
            handles.len() == found.len(),
            rows.len() == i,
            match remembered {
                Some(c) => remembered_in(*memory) == Some(c@),
                None => remembered_in(*memory) is None,
            },
            forall|j: int| 0 <= j < i ==> row_of(#[trigger] rows[j], found[j], handles[j]@, remembered_in(*memory)),
        decreases found.len() - i,
    {
        let certificate = &found[i];
        let subject = borrowed(&certificate.subject);
        let (holder_name, id_number) = holder_of(subject);
        let is_remembered = match &remembered {
            Some(one) => one.is_the_same_as(&certificate.reference),
            None => false,
        };
        rows.push(
            CertificateView {
                id: handles[i].clone(),
                label: certificate.reference.label.clone(),
                holder_name,
                id_number,
                issuer: issuer_of(borrowed(&certificate.issuer)),
                store: certificate.store.clone(),
                status: certificate.status,
                remembered: is_remembered,
            },
        );
        i = i + 1;
    }
    proof {
        assert forall|k: int| 0 <= k < found.len() implies lookup(listed@, #[trigger] rows[k].id@) == Some(
            found[k].reference@,
        ) by {
            assert(row_of(rows[k], found[k], handles[k]@, remembered_in(*memory)));
            listed.a_handle_finds_its_certificate(k);
        }
    }
    rows
}

/// The rows of what the tokens listed, or what went wrong listing them.
pub fn listed_rows(
    found: Result<Vec<TokenCertificate>, TokenError>,
    listed: &mut ListedCertificates,
    memory: &Memory,
) -> (r: Result<Vec<CertificateView>, Failure>)
    requires
        old(listed).well_formed(),
        found matches Ok(f) ==> old(listed).minted() + f.len() <= u64::MAX,
    ensures
        final(listed).well_formed(),
        match found {
            Err(e) => r matches Err(f) && f.situation@ == token_situation_name(e.situation)
                && f.detail@ == e.detail@ && final(listed)@ == old(listed)@,
            Ok(all) => r matches Ok(rows) && rows.len() == all.len() && final(listed)@.len()
                == all.len() && forall|k: int|
                0 <= k < all.len() ==> row_of(
                    #[trigger] rows[k],
                    all[k],
                    final(listed)@[k].0,
                    remembered_in(*memory),
                ),
        },
{
    match found {
        Err(error) => Err(error.failure()),
        Ok(found) => Ok(rows_of(found, listed, memory)),
    }
}

/// What the visible signature stamps of the certificate a handle names,
/// among what the tokens listed.
pub fn stamped_holder_named(
    handle: &str,
    found: Result<Vec<TokenCertificate>, TokenError>,
    listed: &ListedCertificates,
) -> (r: Result<StampedHolder, Failure>)
    ensures
        match found {
            Err(e) => r matches Err(f) && f.situation@ == token_situation_name(e.situation),
            Ok(all) => (r is Ok <==> behind(all@, listed@, handle@) is Some) && (r matches Ok(h)
                ==> {
                let c = all@[behind(all@, listed@, handle@)->0];
                &&& h.common_name@ == attribute_of("CN="@, name_view(c.subject))
                &&& h.issuer@ == authority_of(name_view(c.issuer))
                &&& h.pseudonym == is_pseudonym_subject(name_view(c.subject))
            }),
        },
{
    match found {
        Err(error) => Err(error.failure()),
        Ok(certificates) => {
            let chosen = certificate_behind(&certificates, handle, listed)?;
            Ok(stamped_holder_of(chosen))
        },
    }
}

} // verus!
