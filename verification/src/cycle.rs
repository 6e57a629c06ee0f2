//! The three-phase PAdES cycle: the presign across the bridge, the
//! signature on the token and the postsign across the bridge again, tied by
//! a session seal.
use vstd::prelude::*;

use crate::encoding::{base64_standard, standard};
use crate::situations::{BridgeError, CycleError, Inadmissible, SealMismatch, TokenError};
use crate::text::{chars_of, string_of};
use crate::token::CertificateRef;

verus! {

/// The signature algorithm the token's mechanism computes.
pub open spec fn algorithm() -> Seq<char> {
    "SHA256withRSA"@
}

/// How many bytes the invented PKCS#1 of a dry run takes: those of an RSA
/// 2048 signature.
pub const INVENTED_PKCS1_BYTES: usize = 256;

/// The seal the presign issues and the postsign must get back unchanged.
#[derive(Clone, Debug)]
pub struct SessionSeal {
    pub text: String,
}

impl SessionSeal {
    pub fn from_bridge(text: &str) -> (s: SessionSeal)
        ensures
            s.text@ == text@,
    {
        SessionSeal { text: text.to_owned() }
    }

    /// Refuses a seal that came back different from this one.
    pub fn verify_unchanged(&self, returned: &SessionSeal) -> (r: Result<(), SealMismatch>)
        ensures
            r is Ok <==> self.text@ == returned.text@,
    {
        if self.text == returned.text {
            Ok(())
        } else {
            Err(SealMismatch)
        }
    }

    pub fn copied(&self) -> (s: SessionSeal)
        ensures
            s.text@ == self.text@,
    {
        SessionSeal { text: self.text.clone() }
    }
}

/// The signature the token produced.
#[derive(Clone, Debug)]
pub struct TokenSignature {
    pub bytes: Vec<u8>,
}

impl TokenSignature {
    /// The synthetic signature of the dry run: no token computed it.
    pub fn invented() -> (s: TokenSignature)
        ensures
            s.bytes@.len() == INVENTED_PKCS1_BYTES,
            forall|k: int| 0 <= k < s.bytes@.len() ==> s.bytes@[k] == 0,
    {
        let mut bytes: Vec<u8> = Vec::new();
        let mut k: usize = 0;
        while k < INVENTED_PKCS1_BYTES
            invariant
                0 <= k <= INVENTED_PKCS1_BYTES,
                bytes@.len() == k,
                forall|j: int| 0 <= j < k ==> bytes@[j] == 0,
            decreases INVENTED_PKCS1_BYTES - k,
        {
            bytes.push(0);
            k = k + 1;
        }
        TokenSignature { bytes }
    }

    /// The signature as the token returned it.
    pub fn from_token(bytes: Vec<u8>) -> (s: TokenSignature)
        ensures
            s.bytes == bytes,
    {
        TokenSignature { bytes }
    }

    /// The raw signature.
    pub fn raw(&self) -> (r: &[u8])
        ensures
            r@ == self.bytes@,
    {
        self.bytes.as_slice()
    }

    /// The signature in Base64, as the PK1 field of the postsign carries it.
    pub fn to_pkcs1_base64(&self) -> (s: String)
        ensures
            s@ == base64_standard(self.bytes@),
    {
        standard(&self.bytes)
    }
}

/// What is needed to open a signing cycle.
#[derive(Clone, Debug)]
pub struct SigningRequest {
    /// The bytes of a document already admitted for signing.
    pub document: Vec<u8>,
    /// Whether the document already carried signatures.
    pub already_signed: bool,
    /// The chain in DER, the signer's first.
    pub chain: Vec<Vec<u8>>,
    /// The signature's parameters, as Java properties.
    pub extra_params: String,
    /// The certificate to sign with.
    pub certificate: CertificateRef,
}

/// What the presign hands to the bridge.
#[derive(Clone, Debug)]
pub struct PreSignRequest {
    pub pdf_b64: String,
    pub algorithm: String,
    pub certificate_chain_b64: String,
    pub extra_params: String,
}

/// The Base64 of each certificate of the chain, separated by `;`.
pub open spec fn chain_text(chain: Seq<Vec<u8>>) -> Seq<char>
    decreases chain.len(),
{
    if chain.len() == 0 {
        Seq::empty()
    } else if chain.len() == 1 {
        base64_standard(chain[0]@)
    } else {
        chain_text(chain.drop_last()) + ";"@ + base64_standard(chain.last()@)
    }
}

pub fn chain_b64(chain: &Vec<Vec<u8>>) -> (r: Vec<char>)
    ensures
        r@ == chain_text(chain@),
{
    let mut r: Vec<char> = Vec::new();
    let mut k: usize = 0;
    while k < chain.len()
        invariant
            0 <= k <= chain.len(),
            r@ == chain_text(chain@.take(k as int)),
        decreases chain.len() - k,
    {
        let mut piece = chars_of(standard(&chain[k]).as_str());
        assert(chain@.take(k + 1).drop_last() =~= chain@.take(k as int));
        if k > 0 {
            let mut separator = chars_of(";");
            r.append(&mut separator);
        } else {
            assert(r@ =~= Seq::<char>::empty());
        }
        r.append(&mut piece);
        k = k + 1;
    }
    assert(chain@.take(k as int) =~= chain@);
    r
}

/// What the presign hands to the bridge for a request: the document and
/// the chain in Base64, the algorithm and the parameters.
pub fn presign_request(request: &SigningRequest) -> (r: PreSignRequest)
    ensures
        r.pdf_b64@ == base64_standard(request.document@),
        r.algorithm@ == algorithm(),
        r.certificate_chain_b64@ == chain_text(request.chain@),
        r.extra_params@ == request.extra_params@,
{
    PreSignRequest {
        pdf_b64: standard(&request.document),
        algorithm: string_of(&chars_of("SHA256withRSA")),
        certificate_chain_b64: string_of(&chain_b64(&request.chain)),
        extra_params: request.extra_params.clone(),
    }
}

/// What the bridge answers to a presign.
#[derive(Clone, Debug)]
pub struct Presigned {
    pub session: String,
    pub pre_sign: Vec<u8>,
    pub stamp: SessionSeal,
}

/// A cycle opened, waiting for the token's signature.
#[derive(Debug)]
pub struct OpenCycle {
    pdf_b64: String,
    chain_b64: String,
    session: String,
    to_be_signed: Vec<u8>,
    seal: SessionSeal,
    certificate: CertificateRef,
    already_signed_before: bool,
}

impl OpenCycle {
    pub closed spec fn to_be_signed_view(&self) -> Seq<u8> {
        self.to_be_signed@
    }

    pub closed spec fn seal_view(&self) -> Seq<char> {
        self.seal.text@
    }

    pub closed spec fn certificate_view(&self) -> crate::token::ReferenceView {
        self.certificate@
    }

    pub closed spec fn cosigning(&self) -> bool {
        self.already_signed_before
    }

    pub closed spec fn pdf_view(&self) -> Seq<char> {
        self.pdf_b64@
    }

    pub closed spec fn chain_view(&self) -> Seq<char> {
        self.chain_b64@
    }

    pub closed spec fn session_view(&self) -> Seq<char> {
        self.session@
    }

    /// The bytes the token must sign, unhashed.
    pub fn to_be_signed(&self) -> (b: &[u8])
        ensures
            b@ == self.to_be_signed_view(),
    {
        self.to_be_signed.as_slice()
    }

    /// The certificate the cycle was opened with.
    pub fn certificate(&self) -> (c: &CertificateRef)
        ensures
            c@ == self.certificate_view(),
    {
        &self.certificate
    }

    /// Whether the document already carried signatures.
    pub fn is_cosigning(&self) -> (r: bool)
        ensures
            r == self.cosigning(),
    {
        self.already_signed_before
    }

    /// A copy of the seal, to carry it to the postsign.
    pub fn seal_in_transit(&self) -> (s: SessionSeal)
        ensures
            s.text@ == self.seal_view(),
    {
        self.seal.copied()
    }

    /// Phase 2: the token's answer over the bytes to be signed.
    pub fn sign_on_token(&self, signed: Result<Vec<u8>, TokenError>) -> (r: Result<
        TokenSignature,
        CycleError,
    >)
        ensures
            match signed {
                Ok(bytes) => r matches Ok(s) && s.bytes == bytes,
                Err(e) => r matches Err(CycleError::Token(t)) && t.situation == e.situation,
            },
    {
        match signed {
            Ok(bytes) => Ok(TokenSignature::from_token(bytes)),
            Err(error) => Err(CycleError::Token(error)),
        }
    }

    /// Phase 3: the seal is compared first, and only an unchanged one lets
    /// the request cross to the bridge.
    pub fn postsign(&self, signature: &TokenSignature, returned: &SessionSeal) -> (r: Result<
        PostSignRequest,
        CycleError,
    >)
        ensures
            r is Ok <==> returned.text@ == self.seal_view(),
            r matches Err(e) ==> e is Seal,
            r matches Ok(p) ==> {
                &&& p.pdf_b64@ == self.pdf_view()
                &&& p.certificate_chain_b64@ == self.chain_view()
                &&& p.stamp.text@ == returned.text@
                &&& p.session@ == self.session_view()
                &&& p.pkcs1_b64@ == base64_standard(signature.bytes@)
            },
    {
        match self.seal.verify_unchanged(returned) {
            Err(mismatch) => Err(CycleError::Seal(mismatch)),
            Ok(()) => Ok(
                PostSignRequest {
                    pdf_b64: self.pdf_b64.clone(),
                    certificate_chain_b64: self.chain_b64.clone(),
                    stamp: returned.copied(),
                    session: self.session.clone(),
                    pkcs1_b64: signature.to_pkcs1_base64(),
                },
            ),
        }
    }
}

/// What the postsign hands to the bridge.
#[derive(Clone, Debug)]
pub struct PostSignRequest {
    pub pdf_b64: String,
    pub certificate_chain_b64: String,
    pub stamp: SessionSeal,
    pub session: String,
    pub pkcs1_b64: String,
}

/// Phase 1: the cycle the bridge's answer to the presign opens.
pub fn presign(request: &SigningRequest, answered: Result<Presigned, BridgeError>) -> (r: Result<
    OpenCycle,
    CycleError,
>)
    ensures
        match answered {
            Err(error) => r == Err::<OpenCycle, CycleError>(CycleError::Bridge(error)),
            Ok(presigned) => r matches Ok(c) && {
                &&& c.to_be_signed_view() == presigned.pre_sign@
                &&& c.seal_view() == presigned.stamp.text@
                &&& c.certificate_view() == request.certificate@
                &&& c.cosigning() == request.already_signed
                &&& c.pdf_view() == base64_standard(request.document@)
                &&& c.chain_view() == chain_text(request.chain@)
                &&& c.session_view() == presigned.session@
            },
        },
{
    let presigned = match answered {
        Ok(presigned) => presigned,
        Err(error) => return Err(CycleError::Bridge(error)),
    };
    let crossing = presign_request(request);
    Ok(
        OpenCycle {
            pdf_b64: crossing.pdf_b64,
            chain_b64: crossing.certificate_chain_b64,
            session: presigned.session,
            to_be_signed: presigned.pre_sign,
            seal: presigned.stamp,
            certificate: request.certificate.copied(),
            already_signed_before: request.already_signed,
        },
    )
}

} // verus!
