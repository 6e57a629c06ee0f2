//! The listing the site accepts: the criteria of the application first, and
//! the site's expression after, applied by the borrowed engine.
use vstd::prelude::*;

use crate::certificates::{behind, status_name, usable_certificate};
use crate::token::lookup;
use crate::cycle::{chain_b64, chain_text};
use crate::situations::{token_situation_name, BridgeError, Failure, TokenError};
use crate::text::{chars_of, decimal, decimal_of, string_of};
use crate::token::{ListedCertificates, ReferenceView, TokenCertificate};

verus! {

/// The filter a site declared: its pairs, crossing literally.
#[derive(Clone, Debug, Default, PartialEq)]
pub struct SiteFilter {
    pub pairs: Vec<(String, String)>,
}

/// The pairs as Java properties, one `key=value` per line.
pub open spec fn properties_text(pairs: Seq<(String, String)>) -> Seq<char>
    decreases pairs.len(),
{
    if pairs.len() == 0 {
        Seq::empty()
    } else {
        properties_text(pairs.drop_last()) + pairs.last().0@ + "="@ + pairs.last().1@ + "\n"@
    }
}

impl SiteFilter {
    /// The filter a site declared with these pairs.
    pub fn declared(pairs: Vec<(String, String)>) -> (f: SiteFilter)
        ensures
            f.pairs == pairs,
    {
        SiteFilter { pairs }
    }

    /// A filter that declares nothing.
    pub fn nothing() -> (f: SiteFilter)
        ensures
            f.pairs@.len() == 0,
    {
        SiteFilter { pairs: Vec::new() }
    }

    /// The expression as it crosses to the engine.
    pub fn as_java_properties(&self) -> (text: String)
        ensures
            text@ == properties_text(self.pairs@),
    {
        let mut text: Vec<char> = Vec::new();
        let mut k: usize = 0;
        while k < self.pairs.len()
            invariant
                0 <= k <= self.pairs.len(),
                text@ == properties_text(self.pairs@.take(k as int)),
            decreases self.pairs.len() - k,
        {
            assert(self.pairs@.take(k + 1).drop_last() =~= self.pairs@.take(k as int));
            let mut key = chars_of(self.pairs[k].0.as_str());
            let mut equals = chars_of("=");
            let mut value = chars_of(self.pairs[k].1.as_str());
            let mut end = chars_of("\n");
            text.append(&mut key);
            text.append(&mut equals);
            text.append(&mut value);
            text.append(&mut end);
            k = k + 1;
        }
        assert(self.pairs@.take(k as int) =~= self.pairs@);
        string_of(&text)
    }

    pub fn copied(&self) -> (f: SiteFilter)
        ensures
            f.pairs@.len() == self.pairs@.len(),
            forall|k: int| 0 <= k < f.pairs@.len() ==> #[trigger] f.pairs@[k].0@ == self.pairs@[k].0@ && f.pairs@[k].1@ == self.pairs@[k].1@,
    {
        let mut pairs: Vec<(String, String)> = Vec::new();
        let mut k: usize = 0;
        while k < self.pairs.len()
            invariant
                0 <= k <= self.pairs.len(),
                pairs@.len() == k,
                forall|j: int| 0 <= j < k ==> #[trigger] pairs@[j].0@ == self.pairs@[j].0@ && pairs@[j].1@ == self.pairs@[j].1@,
            decreases self.pairs.len() - k,
        {
            pairs.push((self.pairs[k].0.clone(), self.pairs[k].1.clone()));
            k = k + 1;
        }
        SiteFilter { pairs }
    }
}

/// Whoever can narrow a listing with the site's expression: the bridge in
/// production, a double in the tests.
pub trait FilterEngine {
    /// The indexes, over the list given and in its order, that pass.
    fn select(&self, filter_properties: &str, certificates_b64: &str) -> Result<Vec<usize>, BridgeError>;
}

/// The DERs of a listing, in its order.
pub open spec fn ders_of(certificates: Seq<TokenCertificate>) -> Seq<Seq<u8>> {
    certificates.map_values(|c: TokenCertificate| c.der@)
}

/// The listing as the bridge receives it: the Base64 of each DER, separated
/// by `;`.
pub open spec fn payload_text(certificates: Seq<TokenCertificate>) -> Seq<char> {
    chain_text(certificates.map_values(|c: TokenCertificate| c.der))
}

fn to_der_payload(certificates: &[TokenCertificate]) -> (text: String)
    ensures
        text@ == payload_text(certificates@),
{
    let mut ders: Vec<Vec<u8>> = Vec::new();
    let mut k: usize = 0;
    while k < certificates.len()
        invariant
            0 <= k <= certificates.len(),
            ders@.len() == k,
            forall|j: int| 0 <= j < k ==> #[trigger] ders@[j]@ == certificates@[j].der@,
        decreases certificates.len() - k,
    {
        ders.push(crate::token::copy_bytes(certificates[k].der()));
        k = k + 1;
    }
    let text = chain_b64(&ders);
    proof {
        lemma_chain_text_by_view(ders@, certificates@.map_values(|c: TokenCertificate| c.der));
    }
    string_of(&text)
}

proof fn lemma_chain_text_by_view(a: Seq<Vec<u8>>, b: Seq<Vec<u8>>)
    requires
        a.len() == b.len(),
        forall|j: int| 0 <= j < a.len() ==> #[trigger] a[j]@ == b[j]@,
    ensures
        chain_text(a) == chain_text(b),
    decreases a.len(),
{
    if a.len() > 1 {
        lemma_chain_text_by_view(a.drop_last(), b.drop_last());
    }
}

/// The certificates whose index was accepted, in the listing's order.
pub open spec fn kept_of(certificates: Seq<TokenCertificate>, accepted: Seq<usize>) -> Seq<TokenCertificate>
    decreases certificates.len(),
{
    if certificates.len() == 0 {
        Seq::empty()
    } else if accepted.contains((certificates.len() - 1) as usize) {
        kept_of(certificates.drop_last(), accepted).push(certificates.last())
    } else {
        kept_of(certificates.drop_last(), accepted)
    }
}

/// What the site keeps is never more than what it was shown.
pub proof fn lemma_kept_is_no_longer(certificates: Seq<TokenCertificate>, accepted: Seq<usize>)
    ensures
        kept_of(certificates, accepted).len() <= certificates.len(),
    decreases certificates.len(),
{
    if certificates.len() > 0 {
        lemma_kept_is_no_longer(certificates.drop_last(), accepted);
    }
}

/// What a bridge error is told as.
pub fn bridge_failure(error: &BridgeError) -> (f: Failure)
    ensures
        f.situation@ == "bridgeFailed"@,
{
    let detail = match error {
        BridgeError::PdfHasUnregisteredSignatures(d) => d.clone(),
        BridgeError::IncompatiblePolicy(d) => d.clone(),
        BridgeError::ExecutablePathUnknown(d) => d.clone(),
        BridgeError::NotFound(d) => d.clone(),
        BridgeError::Load { detail } => detail.clone(),
        BridgeError::MissingSymbol { symbol } => symbol.clone(),
        BridgeError::IsolateFailed(d) => d.clone(),
        BridgeError::InvalidArgument(d) => d.clone(),
        BridgeError::NullResponse => string_of(&chars_of("el puente no ha contestado")),
        BridgeError::MalformedResponse(d) => d.clone(),
        BridgeError::Failed(d) => d.clone(),
    };
    Failure::new("bridgeFailed", detail)
}

/// The first index out of the listing, if any.
pub open spec fn out_of_range(accepted: Seq<usize>, n: nat) -> Option<usize>
    decreases accepted.len(),
{
    if accepted.len() == 0 {
        None
    } else if accepted[0] >= n {
        Some(accepted[0])
    } else {
        out_of_range(accepted.drop_first(), n)
    }
}

/// What the engine's answer means for a listing: the certificates it
/// picked, or a failure when it failed or named a row that does not exist.
pub fn kept_by(certificates: Vec<TokenCertificate>, answer: Result<Vec<usize>, BridgeError>) -> (r: Result<
    Vec<TokenCertificate>,
    Failure,
>)
    ensures
        match answer {
            Err(_) => r matches Err(f) && f.situation@ == "bridgeFailed"@,
            Ok(accepted) => match out_of_range(accepted@, certificates@.len()) {
                Some(index) => r matches Err(f) && f.situation@ == "bridgeFailed"@ && f.detail@
                    == "el motor de filtros ha devuelto el indice "@ + decimal(index as nat),
                None => r matches Ok(kept) && kept@ == kept_of(certificates@, accepted@),
            },
        },
{
    let ghost answered = answer;
    let accepted = match answer {
        Ok(accepted) => accepted,
        Err(error) => return Err(bridge_failure(&error)),
    };
    let mut i: usize = 0;
    assert(accepted@.skip(0) =~= accepted@);
    while i < accepted.len()
        invariant
            answered == Ok::<Vec<usize>, BridgeError>(accepted),
            answer == answered,
            0 <= i <= accepted.len(),
            out_of_range(accepted@, certificates@.len()) == out_of_range(accepted@.skip(i as int), certificates@.len()),
        decreases accepted.len() - i,
    {
        assert(accepted@.skip(i as int)[0] == accepted@[i as int]);
        assert(accepted@.skip(i as int).drop_first() =~= accepted@.skip(i + 1));
        if accepted[i] >= certificates.len() {
            let mut detail = chars_of("el motor de filtros ha devuelto el indice ");
            let mut number = decimal_of(accepted[i]);
            detail.append(&mut number);
            return Err(Failure::new("bridgeFailed", string_of(&detail)));
        }
        i = i + 1;
    }
    let mut kept: Vec<TokenCertificate> = Vec::new();
    let mut k: usize = 0;
    let ghost all = certificates@;
    let total = certificates.len();
    let mut rest = certificates;
    let mut taken: Vec<TokenCertificate> = Vec::new();
    while k < total
        invariant
            total == all.len(),
            0 <= k <= all.len(),
            answered == Ok::<Vec<usize>, BridgeError>(accepted),
            kept@ == kept_of(all.take(k as int), accepted@),
            rest@ == all.skip(k as int),
        decreases all.len() - k,
    {
        assert(all.take(k + 1).drop_last() =~= all.take(k as int));
        assert(all.take(k + 1).last() == all[k as int]);
        let certificate = rest.remove(0);
        assert(rest@ =~= all.skip(k + 1));
        if contains(&accepted, k) {
            kept.push(certificate);
        }
        k = k + 1;
    }
    assert(all.take(k as int) =~= all);
    Ok(kept)
}

/// Whether this is what the engine's answer means for a listing.
pub open spec fn kept_as(
    certificates: Seq<TokenCertificate>,
    answer: Result<Vec<usize>, BridgeError>,
    r: Result<Vec<TokenCertificate>, Failure>,
) -> bool {
    match answer {
        Err(_) => r matches Err(f) && f.situation@ == "bridgeFailed"@,
        Ok(accepted) => match out_of_range(accepted@, certificates.len()) {
            Some(index) => r matches Err(f) && f.situation@ == "bridgeFailed"@ && f.detail@
                == "el motor de filtros ha devuelto el indice "@ + decimal(index as nat),
            None => r matches Ok(kept) && kept@ == kept_of(certificates, accepted@),
        },
    }
}

/// Whether the engine, asked with this filter over this listing, may have
/// answered so: the expression and the listing cross untouched.
pub open spec fn selected<S: Fn(&str, &str) -> Result<Vec<usize>, BridgeError>>(
    select: S,
    filter: SiteFilter,
    certificates: Seq<TokenCertificate>,
    answer: Result<Vec<usize>, BridgeError>,
) -> bool {
    exists|e: &str, p: &str|
        e@ == properties_text(filter.pairs@) && p@ == payload_text(certificates) && #[trigger] select.ensures(
            (e, p),
            answer,
        )
}

/// The site's expression applied to a listing through `select`: what comes
/// back is exactly what the engine's answer means for the listing given.
pub fn kept_through<S>(select: &S, filter: &SiteFilter, certificates: Vec<TokenCertificate>) -> (r: Result<
    Vec<TokenCertificate>,
    Failure,
>) where S: Fn(&str, &str) -> Result<Vec<usize>, BridgeError>,
    requires
        forall|e: &str, p: &str| select.requires((e, p)),
    ensures
        exists|answer: Result<Vec<usize>, BridgeError>|
            selected(*select, *filter, certificates@, answer) && kept_as(certificates@, answer, r),
        r matches Ok(kept) ==> exists|accepted: Seq<usize>| kept@ == kept_of(certificates@, accepted),
        r matches Err(f) ==> f.situation@ == "bridgeFailed"@,
{
    let expression = filter.as_java_properties();
    let payload = to_der_payload(&certificates);
    let e = expression.as_str();
    let p = payload.as_str();
    let answer = select(e, p);
    assert(select.ensures((e, p), answer));
    let ghost given = certificates@;
    let ghost answered = answer;
    let r = kept_by(certificates, answer);
    proof {
        assert(selected(*select, *filter, given, answered));
        assert(kept_as(given, answered, r));
        if r is Ok {
            let accepted = answered->Ok_0@;
            assert(r->Ok_0@ == kept_of(given, accepted));
        }
    }
    r
}

fn contains(v: &Vec<usize>, x: usize) -> (r: bool)
    ensures
        r == v@.contains(x),
{
    let mut i: usize = 0;
    while i < v.len()
        invariant
            0 <= i <= v.len(),
            forall|j: int| 0 <= j < i ==> v@[j] != x,
        decreases v.len() - i,
    {
        if v[i] == x {
            assert(v@[i as int] == x);
            return true;
        }
        i = i + 1;
    }
    false
}

/// The site's expression applied to a listing that already passed the
/// application's criteria; the expression and the listing cross untouched.
/// What the engine answers is not stated: whatever it answered, what comes
/// back is a listing of the certificates given, in their order.
pub fn keep_what_the_site_accepts<E: FilterEngine>(
    engine: &E,
    filter: &SiteFilter,
    certificates: Vec<TokenCertificate>,
) -> (r: Result<Vec<TokenCertificate>, Failure>)
    ensures
        r matches Ok(kept) ==> exists|accepted: Seq<usize>| kept@ == kept_of(certificates@, accepted),
        r matches Err(f) ==> f.situation@ == "bridgeFailed"@,
        exists|answer: Result<Vec<usize>, BridgeError>| #[trigger] kept_as(certificates@, answer, r),
{
    let expression = filter.as_java_properties();
    let payload = to_der_payload(&certificates);
    let answer = engine.select(expression.as_str(), payload.as_str());
    let ghost given = certificates@;
    let ghost answered = answer;
    let r = kept_by(certificates, answer);
    proof {
        assert(kept_as(given, answered, r));
        if r is Ok {
            let accepted = answered->Ok_0@;
            assert(r->Ok_0@ == kept_of(given, accepted));
        }
    }
    r
}


/// The listing the site accepts, from what the tokens listed: the
/// application's criteria were applied by the listing, and only what
/// survived them is shown to the engine.
pub fn listing_the_site_accepts<E: FilterEngine>(
    engine: &E,
    ours: Result<Vec<TokenCertificate>, TokenError>,
    filter: &SiteFilter,
) -> (r: Result<Vec<TokenCertificate>, Failure>)
    ensures
        match ours {
            Err(e) => r matches Err(f) && f.situation@ == token_situation_name(e.situation),
            Ok(all) => (r matches Ok(kept) ==> exists|accepted: Seq<usize>|
                kept@ == kept_of(all@, accepted)) && (r matches Err(f) ==> f.situation@
                == "bridgeFailed"@),
        },
{
    match ours {
        Err(error) => Err(error.failure()),
        Ok(ours) => keep_what_the_site_accepts(engine, filter, ours),
    }
}

/// What is told of a certificate the site's filter no longer accepts.
pub open spec fn excluded_detail(label: Seq<char>) -> Seq<char> {
    "la sede excluye "@ + label + ": su filtro ya no lo acepta"@
}

/// Whether the last check before the PIN may have come to this: the
/// certificate behind the handle must be there and in force, and then the
/// site's filter is asked again over it alone.
pub open spec fn usable_as<S: Fn(&str, &str) -> Result<Vec<usize>, BridgeError>>(
    select: S,
    filter: SiteFilter,
    certificates: Seq<TokenCertificate>,
    listed: Seq<(Seq<char>, ReferenceView)>,
    handle: Seq<char>,
    r: Result<TokenCertificate, Failure>,
) -> bool {
    match behind(certificates, listed, handle) {
        Some(i) if certificates[i].status is Valid => exists|
            one: Seq<TokenCertificate>,
            answer: Result<Vec<usize>, BridgeError>,
            kept: Result<Vec<TokenCertificate>, Failure>,
        |
            one.len() == 1 && one[0].der@ == certificates[i].der@ && selected(select, filter, one, answer)
                && #[trigger] kept_as(one, answer, kept) && match kept {
                Err(f) => r == Err::<TokenCertificate, Failure>(f),
                Ok(k) => if k@.len() == 0 {
                    r matches Err(f) && f.situation@ == "certificateNotFound"@ && f.detail@ == excluded_detail(
                        certificates[i].reference.label@,
                    )
                } else {
                    r == Ok::<TokenCertificate, Failure>(certificates[i])
                },
            },
        _ => r matches Err(f) && f.situation@ == "certificateNotFound"@ && f.detail@ == unusable_detail(
            certificates,
            listed,
            handle,
        ),
    }
}

/// What is told of a handle with no certificate in force behind it.
pub open spec fn unusable_detail(
    certificates: Seq<TokenCertificate>,
    listed: Seq<(Seq<char>, ReferenceView)>,
    handle: Seq<char>,
) -> Seq<char> {
    match behind(certificates, listed, handle) {
        Some(i) => certificates[i].reference.label@ + ": "@ + status_name(certificates[i].status),
        None => match lookup(listed, handle) {
            None => "el certificado elegido no es de la ultima busqueda"@,
            Some(wanted) => "el token ya no tiene "@ + wanted.2,
        },
    }
}

/// The certificate the order names, checked through `select`: if it is
/// still there, can still sign and the site's filter still accepts it.
pub fn usable_through<'a, S>(
    select: &S,
    filter: &SiteFilter,
    certificates: &'a [TokenCertificate],
    handle: &str,
    listed: &ListedCertificates,
) -> (r: Result<&'a TokenCertificate, Failure>) where S: Fn(&str, &str) -> Result<Vec<usize>, BridgeError>,
    requires
        forall|e: &str, p: &str| select.requires((e, p)),
    ensures
        usable_as(
            *select,
            *filter,
            certificates@,
            listed@,
            handle@,
            match r {
                Ok(c) => Ok::<TokenCertificate, Failure>(*c),
                Err(f) => Err::<TokenCertificate, Failure>(f),
            },
        ),
        r matches Ok(c) ==> (behind(certificates@, listed@, handle@) matches Some(i) && *c
            == certificates@[i] && c.status is Valid),
        !(behind(certificates@, listed@, handle@) matches Some(i) && certificates@[i].status is Valid)
            ==> (r matches Err(f) && f.situation@ == "certificateNotFound"@),
{
    let chosen = match usable_certificate(certificates, handle, listed) {
        Ok(chosen) => chosen,
        Err(f) => {
            return Err(f);
        },
    };
    let ghost i = behind(certificates@, listed@, handle@)->0;
    let mut only: Vec<TokenCertificate> = Vec::new();
    only.push(chosen.copied());
    let ghost one = only@;
    let kept = kept_through(select, filter, only);
    let ghost kept_view = kept;
    let ghost answer = choose|answer: Result<Vec<usize>, BridgeError>|
        selected(*select, *filter, one, answer) && kept_as(one, answer, kept_view);
    assert(selected(*select, *filter, one, answer) && kept_as(one, answer, kept_view));
    let r = match kept {
        Err(failure) => Err(failure),
        Ok(kept) => {
            if kept.len() == 0 {
                let mut detail = chars_of("la sede excluye ");
                let mut label = chars_of(chosen.reference().label());
                let mut tail = chars_of(": su filtro ya no lo acepta");
                detail.append(&mut label);
                detail.append(&mut tail);
                Err(Failure::new("certificateNotFound", string_of(&detail)))
            } else {
                Ok(chosen)
            }
        },
    };
    r
}

/// The certificate the order names, if it is still there, can still sign
/// and the site still accepts it: the last check before the PIN.
pub fn usable_certificate_for_the_site<'a, E: FilterEngine>(
    engine: &E,
    filter: &SiteFilter,
    certificates: &'a [TokenCertificate],
    handle: &str,
    listed: &ListedCertificates,
) -> (r: Result<&'a TokenCertificate, Failure>)
    ensures
        r matches Ok(c) ==> (behind(certificates@, listed@, handle@) matches Some(i) && *c
            == certificates@[i] && c.status is Valid),
        !(behind(certificates@, listed@, handle@) matches Some(i) && certificates@[i].status is Valid)
            ==> (r matches Err(f) && f.situation@ == "certificateNotFound"@ && f.detail@ == unusable_detail(
            certificates@,
            listed@,
            handle@,
        )),
        forall|i: int|
            behind(certificates@, listed@, handle@) == Some(i) && certificates@[i].status is Valid ==> (
            r matches Err(f) ==> f.situation@ == "bridgeFailed"@ || (f.situation@ == "certificateNotFound"@
                && f.detail@ == excluded_detail(certificates@[i].reference.label@))),
{
    let select = |e: &str, p: &str| -> (answer: Result<Vec<usize>, BridgeError>) { engine.select(e, p) };
    let r = usable_through(&select, filter, certificates, handle, listed);
    let ghost u = if r is Ok {
        Ok::<TokenCertificate, Failure>(*r->Ok_0)
    } else {
        Err::<TokenCertificate, Failure>(r->Err_0)
    };
    assert(usable_as(select, *filter, certificates@, listed@, handle@, u));
    r
}

} // verus!
