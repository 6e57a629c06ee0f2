//! The dry run of a signature: the whole three-phase cycle with an invented
//! PKCS#1, so that the window paints inside the box what will really stay.
//! No PIN is asked and nothing is written.
use vstd::prelude::*;

use crate::certificates::{behind, usable_certificate};
use crate::cycle::{INVENTED_PKCS1_BYTES, presign, presign_request, PostSignRequest, PreSignRequest, Presigned, SigningRequest, TokenSignature};
use crate::documents::{opened_document, opened_under, OpenedDocuments, PortalDocument};
use crate::encoding::base64_standard;
use crate::policies::{properties_of, to_java_properties};
use crate::signing::cycle_failure;
use crate::situations::{BridgeError, CycleError, CycleFailure, Failure, TokenError};
use crate::token::{ListedCertificates, TokenCertificate};

verus! {

/// The PDF composed with the seal that will stay, unsigned: the same road as
/// the signature up to the presign, then the token is skipped, the PKCS#1
/// is invented, and the postsign assembles. The bridge is crossed twice, for
/// the whole set of pages.
pub fn compose<R, L, G, Q, P>(
    document: &str,
    certificate: &str,
    opened: &OpenedDocuments,
    read: R,
    list: L,
    config: G,
    bridge_presign: Q,
    bridge_postsign: P,
    listed: &ListedCertificates,
) -> (r: Result<Vec<u8>, Failure>) where
    R: FnOnce(&PortalDocument) -> Result<(Vec<u8>, bool), CycleFailure>,
    L: FnOnce() -> Result<Vec<TokenCertificate>, TokenError>,
    G: FnOnce(&TokenCertificate) -> Result<Vec<(String, String)>, Failure>,
    Q: FnOnce(PreSignRequest) -> Result<Presigned, BridgeError>,
    P: FnOnce(PostSignRequest) -> Result<Vec<u8>, BridgeError>,

    requires
        forall|d: &PortalDocument| read.requires((d,)),
        list.requires(()),
        forall|c: &TokenCertificate| config.requires((c,)),
        forall|p: PreSignRequest| bridge_presign.requires((p,)),
        forall|p: PostSignRequest| bridge_postsign.requires((p,)),
    ensures
        opened_under(opened@, document@) is None ==> (r matches Err(f) && f.situation@ == "documentUnreadable"@),
        opened_under(opened@, document@) matches Some(found) ==> exists|
            d: PortalDocument,
            got: Result<(Vec<u8>, bool), CycleFailure>,
        |
            d.path@ == found.0 && #[trigger] read.ensures((&d,), got) && match got {
                Err(_) => r is Err,
                Ok(admitted) => exists|listing: Result<Vec<TokenCertificate>, TokenError>|
                    #[trigger] list.ensures((), listing) && match listing {
                        Err(_) => r is Err,
                        Ok(found_certs) => match behind(found_certs@, listed@, certificate@) {
                            Some(i) if found_certs@[i].status is Valid => exists|
                                ours: Result<Vec<(String, String)>, Failure>,
                            |
                                #[trigger] config.ensures((&found_certs@[i],), ours) && match ours {
                                    Err(f) => r == Err::<Vec<u8>, Failure>(f),
                                    Ok(o) => composed_as(
                                        bridge_presign,
                                        bridge_postsign,
                                        admitted.0@,
                                        found_certs@[i].der@,
                                        o@,
                                        r,
                                    ),
                                },
                            _ => r matches Err(f) && f.situation@ == "certificateNotFound"@,
                        },
                    },
            },
{
    let portal = match opened_document(opened, document) {
        Ok(portal) => portal,
        Err(f) => {
            return Err(f);
        },
    };
    let got = read(&portal);
    assert(read.ensures((&portal,), got));
    let (bytes, already_signed) = match got {
        Ok(admitted) => admitted,
        Err(failure) => {
            return Err(cycle_failure(&failure));
        },
    };
    let listing = list();
    assert(list.ensures((), listing));
    let found = match listing {
        Ok(found) => found,
        Err(error) => {
            return Err(error.failure());
        },
    };
    let chosen = match usable_certificate(&found, certificate, listed) {
        Ok(chosen) => chosen,
        Err(f) => {
            return Err(f);
        },
    };
    let configured = config(chosen);
    assert(config.ensures((chosen,), configured));
    let ours = match configured {
        Ok(ours) => ours,
        Err(f) => {
            return Err(f);
        },
    };
    let ghost given = bytes@;
    let ghost o = ours@;
    let mut chain: Vec<Vec<u8>> = Vec::new();
    chain.push(crate::token::copy_bytes(chosen.der()));
    let request = SigningRequest {
        document: bytes,
        already_signed,
        chain,
        extra_params: to_java_properties(&ours),
        certificate: chosen.reference().copied(),
    };
    let asked = presign_request(&request);
    let ghost asked_view = asked;
    assert(request.chain@.len() == 1);
    let answered = bridge_presign(asked);
    assert(bridge_presign.ensures((asked_view,), answered));
    let ghost answered_view = answered;
    let cycle = match presign(&request, answered) {
        Ok(cycle) => cycle,
        Err(error) => {
            let r = Err(cycle_failure(&CycleFailure::Cycle(error)));
            assert(composed_as(bridge_presign, bridge_postsign, given, chosen.der@, o, r));
            return r;
        },
    };
    let seal = cycle.seal_in_transit();
    let invented = TokenSignature::invented();
    let crossing = match cycle.postsign(&invented, &seal) {
        Ok(crossing) => crossing,
        Err(error) => {
            return Err(cycle_failure(&CycleFailure::Cycle(error)));
        },
    };
    let ghost crossing_view = crossing;
    let composed = bridge_postsign(crossing);
    assert(bridge_postsign.ensures((crossing_view,), composed));
    let r = match composed {
        Ok(composed) => Ok(composed),
        Err(error) => Err(cycle_failure(&CycleFailure::Cycle(CycleError::Bridge(error)))),
    };
    assert(invented.bytes@ =~= invented_pkcs1());
    assert(composed_as(bridge_presign, bridge_postsign, given, chosen.der@, o, r));
    r
}

/// The synthetic signature of the dry run: all zeros, of the length of a
/// real one.
pub open spec fn invented_pkcs1() -> Seq<u8> {
    Seq::new(INVENTED_PKCS1_BYTES as nat, |k: int| 0u8)
}

/// Whether composing may have come to this: the presign over these bytes,
/// with this signer and our parameters, then the postsign of what it
/// answered with an invented PKCS#1, whose bytes are what comes back.
pub open spec fn composed_as<Q, P>(
    bridge_presign: Q,
    bridge_postsign: P,
    bytes: Seq<u8>,
    der: Seq<u8>,
    ours: Seq<(String, String)>,
    r: Result<Vec<u8>, Failure>,
) -> bool where
    Q: FnOnce(PreSignRequest) -> Result<Presigned, BridgeError>,
    P: FnOnce(PostSignRequest) -> Result<Vec<u8>, BridgeError>,
 {
    exists|p: PreSignRequest, presigned: Result<Presigned, BridgeError>|
        #[trigger] bridge_presign.ensures((p,), presigned) && p.pdf_b64@ == base64_standard(bytes)
            && p.certificate_chain_b64@ == base64_standard(der) && p.extra_params@ == properties_of(ours)
            && match presigned {
            Err(_) => r is Err,
            Ok(answer) => exists|q: PostSignRequest, composed: Result<Vec<u8>, BridgeError>|
                #[trigger] bridge_postsign.ensures((q,), composed) && q.pkcs1_b64@
                    == base64_standard(invented_pkcs1()) && q.pdf_b64@ == base64_standard(bytes) && q.stamp.text@
                    == answer.stamp.text@ && q.session@ == answer.session@ && match composed {
                    Ok(b) => r == Ok::<Vec<u8>, Failure>(b),
                    Err(_) => r is Err,
                },
        }
}

} // verus!
