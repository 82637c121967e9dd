//! Inspecting the requests and responses by which a publication conflict is resolved.

use crate::codec::{blake3_digest, blake3_hash, same_bytes};
use crate::identity::RoutePolicy;
use crate::ids::{AccountId, DeviceId, Digest, EndpointId};
use crate::recovery_discovery::utf8_text;
use crate::recovery_qr::{
    decode_bounded_ascii_qr_image, decodes_to, gray_drawing, image_reads, png_of_gray,
    png_signature, render_bounded_ascii_qr_png, render_fault, render_report, reported,
    symbol_version, ImageReading, QrFault, RenderedQr,
};
use crate::text::{encode_hex, hex};
use vstd::prelude::*;

verus! {

/// Why an artifact is refused.
#[derive(Clone, Copy, Debug, PartialEq, Eq, Structural)]
pub enum CeremonyError {
    ReplacementTicketNotUtf8,
    RequestTicketMismatch,
    ResponseTicketMismatch,
    VerificationQrMismatch,
}

/// The ticket by which a peer replaces a publication channel, as far as it is compared and
/// reported.
#[derive(Clone, Copy, Debug, PartialEq, Eq, Structural)]
pub struct ReplacementTicket {
    pub listener_account_id: AccountId,
    pub listener_device_id: DeviceId,
    pub allowed_requester_account_id: AccountId,
    pub route_policy: RoutePolicy,
    pub write_key: Digest,
    pub channel_epoch: u64,
    pub endpoint_id: EndpointId,
    pub peer_authority_revision: u64,
    pub peer_device_count: usize,
}

/// The proof that a publication conflict was detected.
pub struct PublicationConflictProof {
    pub proof_id: String,
    pub evidence_id: String,
    pub detector_device_id: DeviceId,
    pub detected_at_unix_seconds: u64,
    pub publication_generation: u64,
}

/// A request to resolve a publication conflict, signed by a device.
pub struct SignedPublicationConflictResolutionRequest {
    pub request_id: String,
    pub local_account_id: AccountId,
    pub requester_device_id: DeviceId,
    pub authority_revision: u64,
    pub conflict_proof: PublicationConflictProof,
    pub peer_account_id: AccountId,
    pub peer_device_id: DeviceId,
    pub new_write_key: Digest,
    pub old_publication_channel_id: String,
    pub new_publication_channel_id: String,
    pub old_channel_epoch: u64,
    pub new_channel_epoch: u64,
    pub route_policy: RoutePolicy,
    pub replacement_ticket: Vec<u8>,
    pub replacement_ticket_digest: Digest,
    pub requested_at_unix_seconds: u64,
}

/// The resolution of a publication conflict, signed by an account root.
pub struct PublicationConflictResolution {
    pub resolution_id: String,
    pub local_account_id: AccountId,
    pub authority_revision: u64,
    pub conflict_evidence_id: String,
    pub peer_account_id: AccountId,
    pub peer_device_id: DeviceId,
    pub new_write_key: Digest,
    pub old_publication_channel_id: String,
    pub new_publication_channel_id: String,
    pub replacement_ticket_digest: Digest,
    pub authorized_at_unix_seconds: u64,
}

/// The answer to a resolution request.
pub struct PublicationConflictResolutionResponse {
    pub request_id: String,
    pub resolution: PublicationConflictResolution,
    pub replacement_ticket: Vec<u8>,
}

/// What a verification QR code claims of an artifact. Two claims are the same where their
/// encodings are.
pub struct PublicationConflictQrClaim {
    pub encoded: Vec<u8>,
    pub confirmation_code: String,
}

/// What is reported of a resolution request.
pub struct PublicationConflictRequestInspection {
    pub request_file: String,
    pub artifact_bytes: u64,
    pub artifact_digest: String,
    pub request_id: String,
    pub local_account_id: AccountId,
    pub requester_device_id: DeviceId,
    pub authority_revision: u64,
    pub conflict_proof_id: String,
    pub conflict_evidence_id: String,
    pub detector_device_id: DeviceId,
    pub detected_at_unix_seconds: u64,
    pub publication_generation: u64,
    pub peer_account_id: AccountId,
    pub peer_device_id: DeviceId,
    pub old_publication_channel_id: String,
    pub new_publication_channel_id: String,
    pub old_channel_epoch: u64,
    pub new_channel_epoch: u64,
    pub route_policy: RoutePolicy,
    pub replacement_ticket_digest: String,
    pub replacement_endpoint_id: EndpointId,
    pub replacement_peer_authority_revision: u64,
    pub replacement_peer_device_count: usize,
    pub requested_at_unix_seconds: u64,
    pub confirmation_code: String,
    pub verification_qr_status: &'static str,
}

/// What is reported of a resolution response.
pub struct PublicationConflictResponseInspection {
    pub response_file: String,
    pub artifact_bytes: u64,
    pub artifact_digest: String,
    pub request_id: String,
    pub resolution_id: String,
    pub local_account_id: AccountId,
    pub authority_revision: u64,
    pub conflict_evidence_id: String,
    pub peer_account_id: AccountId,
    pub peer_device_id: DeviceId,
    pub old_publication_channel_id: String,
    pub new_publication_channel_id: String,
    pub new_channel_epoch: u64,
    pub route_policy: RoutePolicy,
    pub replacement_ticket_digest: String,
    pub replacement_endpoint_id: EndpointId,
    pub replacement_peer_authority_revision: u64,
    pub replacement_peer_device_count: usize,
    pub authorized_at_unix_seconds: u64,
    pub confirmation_code: String,
    pub verification_qr_status: &'static str,
}

/// The text of a replacement ticket.
pub fn replacement_ticket_text(replacement_ticket: &[u8]) -> (r: Result<String, CeremonyError>)
    ensures
        match r {
            Ok(text) => vstd::utf8::valid_utf8(replacement_ticket@) && text@
                == vstd::utf8::decode_utf8(replacement_ticket@),
            Err(error) => error == CeremonyError::ReplacementTicketNotUtf8
                && !vstd::utf8::valid_utf8(replacement_ticket@),
        },
{
    match utf8_text(replacement_ticket) {
        Some(text) => Ok(text),
        None => Err(CeremonyError::ReplacementTicketNotUtf8),
    }
}

/// What a decoded verification code says of the expected claim: nothing was provided, or the
/// same claim.
pub open spec fn qr_verdict(decoded: Option<PublicationConflictQrClaim>, expected: Seq<u8>) -> Option<
    bool,
> {
    match decoded {
        None => Some(false),
        Some(claim) => if claim.encoded@ == expected {
            Some(true)
        } else {
            None
        },
    }
}

/// The status that is reported of a verification code.
pub open spec fn qr_status(verified: bool) -> Seq<char> {
    if verified {
        "exact-match"@
    } else {
        "not-provided"@
    }
}

/// Holds the claim of an optional verification code against the claim of the artifact.
pub fn verify_optional_qr(
    decoded: &Option<PublicationConflictQrClaim>,
    expected: &PublicationConflictQrClaim,
) -> (r: Result<&'static str, CeremonyError>)
    ensures
        match r {
            Ok(status) => qr_verdict(*decoded, expected.encoded@) is Some && status@ == qr_status(
                qr_verdict(*decoded, expected.encoded@)->0,
            ),
            Err(error) => error == CeremonyError::VerificationQrMismatch && qr_verdict(
                *decoded,
                expected.encoded@,
            ) is None,
        },
{
    match decoded {
        None => Ok("not-provided"),
        Some(claim) => {
            if same_bytes(claim.encoded.as_slice(), expected.encoded.as_slice()) {
                Ok("exact-match")
            } else {
                Err(CeremonyError::VerificationQrMismatch)
            }
        },
    }
}

impl SignedPublicationConflictResolutionRequest {
    /// The replacement ticket is the one that the request sums up: its parties, its route, its
    /// channel, and a channel epoch that grows.
    pub open spec fn matched_by(self, replacement: ReplacementTicket) -> bool {
        &&& replacement.listener_account_id == self.peer_account_id
        &&& replacement.listener_device_id == self.peer_device_id
        &&& replacement.allowed_requester_account_id == self.local_account_id
        &&& replacement.route_policy == self.route_policy
        &&& replacement.write_key == self.new_write_key
        &&& replacement.channel_epoch == self.new_channel_epoch
        &&& self.new_channel_epoch > self.old_channel_epoch
    }

    /// Tests that the replacement ticket is the one that the request sums up.
    pub fn matches(&self, replacement: &ReplacementTicket) -> (r: bool)
        ensures
            r == self.matched_by(*replacement),
    {
        replacement.listener_account_id == self.peer_account_id && replacement.listener_device_id
            == self.peer_device_id && replacement.allowed_requester_account_id
            == self.local_account_id && replacement.route_policy == self.route_policy
            && replacement.write_key == self.new_write_key && replacement.channel_epoch
            == self.new_channel_epoch && self.new_channel_epoch > self.old_channel_epoch
    }
}

impl PublicationConflictResolutionResponse {
    /// The replacement ticket is the one that the resolution names: its parties, its channel,
    /// and its digest.
    pub open spec fn matched_by(self, replacement: ReplacementTicket) -> bool {
        &&& replacement.listener_account_id == self.resolution.peer_account_id
        &&& replacement.listener_device_id == self.resolution.peer_device_id
        &&& replacement.allowed_requester_account_id == self.resolution.local_account_id
        &&& replacement.write_key == self.resolution.new_write_key
        &&& blake3_hash(self.replacement_ticket@)
            == self.resolution.replacement_ticket_digest.raw.bytes()
    }

    /// Tests that the replacement ticket is the one that the resolution names.
    pub fn matches(&self, replacement: &ReplacementTicket) -> (r: bool)
        ensures
            r == self.matched_by(*replacement),
    {
        self.matches_with_digest(replacement, &blake3_digest(self.replacement_ticket.as_slice()))
    }

    /// Tests that the replacement ticket, of which `ticket_digest` is the digest, is the one that
    /// the resolution names.
    pub fn matches_with_digest(&self, replacement: &ReplacementTicket, ticket_digest: &[u8]) -> (r:
        bool)
        ensures
            r == (replacement.listener_account_id == self.resolution.peer_account_id
                && replacement.listener_device_id == self.resolution.peer_device_id
                && replacement.allowed_requester_account_id == self.resolution.local_account_id
                && replacement.write_key == self.resolution.new_write_key && ticket_digest@
                == self.resolution.replacement_ticket_digest.raw.bytes()),
    {
        replacement.listener_account_id == self.resolution.peer_account_id
            && replacement.listener_device_id == self.resolution.peer_device_id
            && replacement.allowed_requester_account_id == self.resolution.local_account_id
            && replacement.write_key == self.resolution.new_write_key && same_bytes(
            ticket_digest,
            &self.resolution.replacement_ticket_digest.raw.to_bytes(),
        )
    }
}

impl PublicationConflictRequestInspection {
    /// The report is on a request that was read as `bytes` from `request_file`.
    pub open spec fn reports(
        self,
        request_file: Seq<char>,
        bytes: Seq<u8>,
        request: SignedPublicationConflictResolutionRequest,
        replacement: ReplacementTicket,
        claim: PublicationConflictQrClaim,
        verified: bool,
    ) -> bool {
        &&& self.request_file@ == request_file
        &&& self.artifact_bytes == bytes.len()
        &&& self.artifact_digest@ == hex(blake3_hash(bytes))
        &&& self.request_id@ == request.request_id@
        &&& self.local_account_id == request.local_account_id
        &&& self.requester_device_id == request.requester_device_id
        &&& self.authority_revision == request.authority_revision
        &&& self.conflict_proof_id@ == request.conflict_proof.proof_id@
        &&& self.conflict_evidence_id@ == request.conflict_proof.evidence_id@
        &&& self.detector_device_id == request.conflict_proof.detector_device_id
        &&& self.detected_at_unix_seconds == request.conflict_proof.detected_at_unix_seconds
        &&& self.publication_generation == request.conflict_proof.publication_generation
        &&& self.peer_account_id == request.peer_account_id
        &&& self.peer_device_id == request.peer_device_id
        &&& self.old_publication_channel_id@ == request.old_publication_channel_id@
        &&& self.new_publication_channel_id@ == request.new_publication_channel_id@
        &&& self.old_channel_epoch == request.old_channel_epoch
        &&& self.new_channel_epoch == request.new_channel_epoch
        &&& self.route_policy == request.route_policy
        &&& self.replacement_ticket_digest@ == hex(request.replacement_ticket_digest.raw.bytes())
        &&& self.replacement_endpoint_id == replacement.endpoint_id
        &&& self.replacement_peer_authority_revision == replacement.peer_authority_revision
        &&& self.replacement_peer_device_count == replacement.peer_device_count
        &&& self.requested_at_unix_seconds == request.requested_at_unix_seconds
        &&& self.confirmation_code@ == claim.confirmation_code@
        &&& self.verification_qr_status@ == qr_status(verified)
    }
}

impl PublicationConflictResponseInspection {
    /// The report is on a response that was read as `bytes` from `response_file`.
    pub open spec fn reports(
        self,
        response_file: Seq<char>,
        bytes: Seq<u8>,
        response: PublicationConflictResolutionResponse,
        replacement: ReplacementTicket,
        claim: PublicationConflictQrClaim,
        verified: bool,
    ) -> bool {
        &&& self.response_file@ == response_file
        &&& self.artifact_bytes == bytes.len()
        &&& self.artifact_digest@ == hex(blake3_hash(bytes))
        &&& self.request_id@ == response.request_id@
        &&& self.resolution_id@ == response.resolution.resolution_id@
        &&& self.local_account_id == response.resolution.local_account_id
        &&& self.authority_revision == response.resolution.authority_revision
        &&& self.conflict_evidence_id@ == response.resolution.conflict_evidence_id@
        &&& self.peer_account_id == response.resolution.peer_account_id
        &&& self.peer_device_id == response.resolution.peer_device_id
        &&& self.old_publication_channel_id@ == response.resolution.old_publication_channel_id@
        &&& self.new_publication_channel_id@ == response.resolution.new_publication_channel_id@
        &&& self.new_channel_epoch == replacement.channel_epoch
        &&& self.route_policy == replacement.route_policy
        &&& self.replacement_ticket_digest@ == hex(response.resolution.replacement_ticket_digest.raw.bytes())
        &&& self.replacement_endpoint_id == replacement.endpoint_id
        &&& self.replacement_peer_authority_revision == replacement.peer_authority_revision
        &&& self.replacement_peer_device_count == replacement.peer_device_count
        &&& self.authorized_at_unix_seconds == response.resolution.authorized_at_unix_seconds
        &&& self.confirmation_code@ == claim.confirmation_code@
        &&& self.verification_qr_status@ == qr_status(verified)
    }
}

/// A request that was inspected.
pub struct InspectedPublicationConflictRequest {
    pub request: SignedPublicationConflictResolutionRequest,
    pub report: PublicationConflictRequestInspection,
    pub claim: PublicationConflictQrClaim,
}

impl InspectedPublicationConflictRequest {
    /// The request.
    pub fn request(&self) -> (r: &SignedPublicationConflictResolutionRequest)
        ensures
            *r == self.request,
    {
        &self.request
    }

    /// The report on it.
    pub fn report(&self) -> (r: &PublicationConflictRequestInspection)
        ensures
            *r == self.report,
    {
        &self.report
    }
}

/// A response that was inspected.
pub struct InspectedPublicationConflictResponse {
    pub report: PublicationConflictResponseInspection,
    pub claim: PublicationConflictQrClaim,
}

impl InspectedPublicationConflictResponse {
    /// The report on it.
    pub fn report(&self) -> (r: &PublicationConflictResponseInspection)
        ensures
            *r == self.report,
    {
        &self.report
    }
}

/// Inspects a request that was read as `bytes` from `request_file`, with the ticket that it holds,
/// the claim that it makes and the claim of a verification code, where one was provided.
pub fn inspect_publication_conflict_request(
    request_file: &str,
    bytes: &[u8],
    request: SignedPublicationConflictResolutionRequest,
    replacement: &ReplacementTicket,
    claim: PublicationConflictQrClaim,
    decoded_qr: &Option<PublicationConflictQrClaim>,
) -> (r: Result<InspectedPublicationConflictRequest, CeremonyError>)
    ensures
        match r {
            Ok(inspected) => {
                &&& request.matched_by(*replacement)
                &&& qr_verdict(*decoded_qr, claim.encoded@) is Some
                &&& inspected.request == request
                &&& inspected.claim == claim
                &&& inspected.report.reports(
                    request_file@,
                    bytes@,
                    request,
                    *replacement,
                    claim,
                    qr_verdict(*decoded_qr, claim.encoded@)->0,
                )
            },
            Err(error) => error == if !request.matched_by(*replacement) {
                CeremonyError::RequestTicketMismatch
            } else {
                CeremonyError::VerificationQrMismatch
            } && !(request.matched_by(*replacement) && qr_verdict(*decoded_qr, claim.encoded@)
                is Some),
        },
{
    if !request.matches(replacement) {
        return Err(CeremonyError::RequestTicketMismatch);
    }
    let verification_qr_status = match verify_optional_qr(decoded_qr, &claim) {
        Ok(status) => status,
        Err(error) => return Err(error),
    };
    let report = PublicationConflictRequestInspection {
        request_file: String::from_str(request_file),
        artifact_bytes: bytes.len() as u64,
        artifact_digest: encode_hex(&blake3_digest(bytes)),
        request_id: String::from_str(request.request_id.as_str()),
        local_account_id: request.local_account_id,
        requester_device_id: request.requester_device_id,
        authority_revision: request.authority_revision,
        conflict_proof_id: String::from_str(request.conflict_proof.proof_id.as_str()),
        conflict_evidence_id: String::from_str(request.conflict_proof.evidence_id.as_str()),
        detector_device_id: request.conflict_proof.detector_device_id,
        detected_at_unix_seconds: request.conflict_proof.detected_at_unix_seconds,
        publication_generation: request.conflict_proof.publication_generation,
        peer_account_id: request.peer_account_id,
        peer_device_id: request.peer_device_id,
        old_publication_channel_id: String::from_str(request.old_publication_channel_id.as_str()),
        new_publication_channel_id: String::from_str(request.new_publication_channel_id.as_str()),
        old_channel_epoch: request.old_channel_epoch,
        new_channel_epoch: request.new_channel_epoch,
        route_policy: request.route_policy,
        replacement_ticket_digest: request.replacement_ticket_digest.raw.to_text(),
        replacement_endpoint_id: replacement.endpoint_id,
        replacement_peer_authority_revision: replacement.peer_authority_revision,
        replacement_peer_device_count: replacement.peer_device_count,
        requested_at_unix_seconds: request.requested_at_unix_seconds,
        confirmation_code: String::from_str(claim.confirmation_code.as_str()),
        verification_qr_status: verification_qr_status,
    };
    Ok(InspectedPublicationConflictRequest { request, report, claim })
}

/// Inspects a response that was read as `bytes` from `response_file`, with the ticket that it
/// holds, the claim that it makes and the claim of a verification code, where one was provided.
pub fn inspect_publication_conflict_response(
    response_file: &str,
    bytes: &[u8],
    response: &PublicationConflictResolutionResponse,
    replacement: &ReplacementTicket,
    claim: PublicationConflictQrClaim,
    decoded_qr: &Option<PublicationConflictQrClaim>,
) -> (r: Result<InspectedPublicationConflictResponse, CeremonyError>)
    ensures
        match r {
            Ok(inspected) => {
                &&& response.matched_by(*replacement)
                &&& qr_verdict(*decoded_qr, claim.encoded@) is Some
                &&& inspected.claim == claim
                &&& inspected.report.reports(
                    response_file@,
                    bytes@,
                    *response,
                    *replacement,
                    claim,
                    qr_verdict(*decoded_qr, claim.encoded@)->0,
                )
            },
            Err(error) => error == if !response.matched_by(*replacement) {
                CeremonyError::ResponseTicketMismatch
            } else {
                CeremonyError::VerificationQrMismatch
            } && !(response.matched_by(*replacement) && qr_verdict(*decoded_qr, claim.encoded@)
                is Some),
        },
{
    if !response.matches(replacement) {
        return Err(CeremonyError::ResponseTicketMismatch);
    }
    let verification_qr_status = match verify_optional_qr(decoded_qr, &claim) {
        Ok(status) => status,
        Err(error) => return Err(error),
    };
    let report = PublicationConflictResponseInspection {
        response_file: String::from_str(response_file),
        artifact_bytes: bytes.len() as u64,
        artifact_digest: encode_hex(&blake3_digest(bytes)),
        request_id: String::from_str(response.request_id.as_str()),
        resolution_id: String::from_str(response.resolution.resolution_id.as_str()),
        local_account_id: response.resolution.local_account_id,
        authority_revision: response.resolution.authority_revision,
        conflict_evidence_id: String::from_str(response.resolution.conflict_evidence_id.as_str()),
        peer_account_id: response.resolution.peer_account_id,
        peer_device_id: response.resolution.peer_device_id,
        old_publication_channel_id: String::from_str(response.resolution.old_publication_channel_id.as_str()),
        new_publication_channel_id: String::from_str(response.resolution.new_publication_channel_id.as_str()),
        new_channel_epoch: replacement.channel_epoch,
        route_policy: replacement.route_policy,
        replacement_ticket_digest: response.resolution.replacement_ticket_digest.raw.to_text(),
        replacement_endpoint_id: replacement.endpoint_id,
        replacement_peer_authority_revision: replacement.peer_authority_revision,
        replacement_peer_device_count: replacement.peer_device_count,
        authorized_at_unix_seconds: response.resolution.authorized_at_unix_seconds,
        confirmation_code: String::from_str(claim.confirmation_code.as_str()),
        verification_qr_status: verification_qr_status,
    };
    Ok(InspectedPublicationConflictResponse { report, claim })
}

/// Renders the URI of an artifact's claim as a verification code. `expected_prefix` and
/// `max_uri_bytes` are what every such URI keeps to.
pub fn render_claim_qr(claim_uri: &str, expected_prefix: &str, max_uri_bytes: usize) -> (r: Result<
    RenderedQr,
    QrFault,
>)
    ensures
        match r {
            Ok(rendered) => {
                let data = vstd::utf8::encode_utf8(claim_uri@);
                let (pixels, side) = gray_drawing(data);
                &&& render_fault(claim_uri@, expected_prefix@, max_uri_bytes as nat) is None
                &&& png_of_gray(pixels, side, side) == Some(rendered.png@)
                &&& png_signature().is_prefix_of(rendered.png@)
                &&& decodes_to(rendered.png@, pixels, side)
                &&& rendered.report == render_report(symbol_version(data), rendered.png@.len())
            },
            Err(fault) => render_fault(claim_uri@, expected_prefix@, max_uri_bytes as nat) == Some(
                fault,
            ),
        },
{
    render_bounded_ascii_qr_png(claim_uri, expected_prefix, max_uri_bytes)
}

/// Reading an image gives a payload, whatever the size of the image.
pub open spec fn image_gives(
    image: Seq<u8>,
    expected_prefix: Seq<char>,
    max_payload_bytes: nat,
    payload: Seq<char>,
) -> bool {
    exists|reading: ImageReading| #[trigger]
        image_reads(image, expected_prefix, max_payload_bytes, reading) && reading is Read
            && reading->payload == payload
}

/// Reads the URI of a claim from the image of a verification code.
pub fn read_claim_qr(image: &[u8], expected_prefix: &str, max_uri_bytes: usize) -> (r: Result<
    String,
    QrFault,
>)
    ensures
        match r {
            Ok(uri) => image_gives(image@, expected_prefix@, max_uri_bytes as nat, uri@),
            Err(fault) => image_reads(
                image@,
                expected_prefix@,
                max_uri_bytes as nat,
                ImageReading::Refused { fault },
            ),
        },
{
    match decode_bounded_ascii_qr_image(image, expected_prefix, max_uri_bytes) {
        Ok(report) => {
            let ghost reading = reported(Ok(report));
            assert(image_reads(image@, expected_prefix@, max_uri_bytes as nat, reading));
            Ok(report.payload)
        },
        Err(fault) => Err(fault),
    }
}

/// An accepted request or response never takes over a ticket of another peer, another account
/// or another channel, and an accepted request only moves the channel's epoch forward.
pub proof fn accepted_artifact_binds_ticket(
    request: SignedPublicationConflictResolutionRequest,
    response: PublicationConflictResolutionResponse,
    replacement: ReplacementTicket,
)
    requires
        request.matched_by(replacement),
        response.matched_by(replacement),
    ensures
        request.peer_account_id == response.resolution.peer_account_id,
        request.peer_device_id == response.resolution.peer_device_id,
        request.local_account_id == response.resolution.local_account_id,
        request.new_write_key == response.resolution.new_write_key,
        replacement.channel_epoch > request.old_channel_epoch,
{
}

/// A QR code is found to match exactly where it holds the expected claim, and to be absent exactly
/// where there is none; another claim is no verdict. The two verdicts are told apart.
pub proof fn verification_needs_the_same_claim(
    decoded: Option<PublicationConflictQrClaim>,
    expected: Seq<u8>,
)
    ensures
        qr_verdict(decoded, expected) == Some(true) <==> decoded is Some && decoded->0.encoded@
            == expected,
        qr_verdict(decoded, expected) == Some(false) <==> decoded is None,
        qr_verdict(decoded, expected) is None <==> decoded is Some && decoded->0.encoded@
            != expected,
        qr_status(true) != qr_status(false),
{
    reveal_strlit("exact-match");
    reveal_strlit("not-provided");
    assert(qr_status(true).len() != qr_status(false).len());
}

/// A replacement ticket is the one of a request exactly where listener, requester, route policy,
/// key and epoch are those of the request, and the epoch is newer than the old one.
pub proof fn request_fixes_its_ticket(
    request: SignedPublicationConflictResolutionRequest,
    replacement: ReplacementTicket,
)
    ensures
        request.matched_by(replacement) <==> {
            &&& request.peer_account_id == replacement.listener_account_id
            &&& request.peer_device_id == replacement.listener_device_id
            &&& request.local_account_id == replacement.allowed_requester_account_id
            &&& request.route_policy == replacement.route_policy
            &&& request.new_write_key == replacement.write_key
            &&& request.new_channel_epoch == replacement.channel_epoch
            &&& request.old_channel_epoch < replacement.channel_epoch
        },
{
}

/// A replacement ticket is the one of a response exactly where listener, requester and key are
/// those of the resolution, and the resolution names the digest of the very ticket.
pub proof fn response_fixes_its_ticket(
    response: PublicationConflictResolutionResponse,
    replacement: ReplacementTicket,
)
    ensures
        response.matched_by(replacement) <==> {
            let resolution = response.resolution;
            &&& resolution.peer_account_id == replacement.listener_account_id
            &&& resolution.peer_device_id == replacement.listener_device_id
            &&& resolution.local_account_id == replacement.allowed_requester_account_id
            &&& resolution.new_write_key == replacement.write_key
            &&& resolution.replacement_ticket_digest.raw.bytes() == blake3_hash(
                response.replacement_ticket@,
            )
        },
{
}

/// The inspection of a request shows the file, its size and digest, and everything that the
/// request, its ticket and its claim say.
pub proof fn request_inspection_shows_everything(
    report: PublicationConflictRequestInspection,
    request_file: Seq<char>,
    bytes: Seq<u8>,
    request: SignedPublicationConflictResolutionRequest,
    replacement: ReplacementTicket,
    claim: PublicationConflictQrClaim,
    verified: bool,
)
    requires
        report.reports(request_file, bytes, request, replacement, claim, verified),
    ensures
        request_file == report.request_file@,
        bytes.len() == report.artifact_bytes,
        hex(blake3_hash(bytes)) == report.artifact_digest@,
        request.request_id@ == report.request_id@,
        request.local_account_id == report.local_account_id,
        request.requester_device_id == report.requester_device_id,
        request.authority_revision == report.authority_revision,
        request.conflict_proof.proof_id@ == report.conflict_proof_id@,
        request.conflict_proof.evidence_id@ == report.conflict_evidence_id@,
        request.conflict_proof.detector_device_id == report.detector_device_id,
        request.conflict_proof.detected_at_unix_seconds == report.detected_at_unix_seconds,
        request.conflict_proof.publication_generation == report.publication_generation,
        request.peer_account_id == report.peer_account_id,
        request.peer_device_id == report.peer_device_id,
        request.old_publication_channel_id@ == report.old_publication_channel_id@,
        request.new_publication_channel_id@ == report.new_publication_channel_id@,
        request.old_channel_epoch == report.old_channel_epoch,
        request.new_channel_epoch == report.new_channel_epoch,
        request.route_policy == report.route_policy,
        hex(request.replacement_ticket_digest.raw.bytes()) == report.replacement_ticket_digest@,
        replacement.endpoint_id == report.replacement_endpoint_id,
        replacement.peer_authority_revision == report.replacement_peer_authority_revision,
        replacement.peer_device_count == report.replacement_peer_device_count,
        request.requested_at_unix_seconds == report.requested_at_unix_seconds,
        claim.confirmation_code@ == report.confirmation_code@,
        verified ==> report.verification_qr_status@ == "exact-match"@,
        !verified ==> report.verification_qr_status@ == "not-provided"@,
{
}

/// The inspection of a response shows the file, its size and digest, and everything that the
/// response, its ticket and its claim say.
pub proof fn response_inspection_shows_everything(
    report: PublicationConflictResponseInspection,
    response_file: Seq<char>,
    bytes: Seq<u8>,
    response: PublicationConflictResolutionResponse,
    replacement: ReplacementTicket,
    claim: PublicationConflictQrClaim,
    verified: bool,
)
    requires
        report.reports(response_file, bytes, response, replacement, claim, verified),
    ensures
        response_file == report.response_file@,
        bytes.len() == report.artifact_bytes,
        hex(blake3_hash(bytes)) == report.artifact_digest@,
        response.request_id@ == report.request_id@,
        response.resolution.resolution_id@ == report.resolution_id@,
        response.resolution.local_account_id == report.local_account_id,
        response.resolution.authority_revision == report.authority_revision,
        response.resolution.conflict_evidence_id@ == report.conflict_evidence_id@,
        response.resolution.peer_account_id == report.peer_account_id,
        response.resolution.peer_device_id == report.peer_device_id,
        response.resolution.old_publication_channel_id@ == report.old_publication_channel_id@,
        response.resolution.new_publication_channel_id@ == report.new_publication_channel_id@,
        replacement.channel_epoch == report.new_channel_epoch,
        replacement.route_policy == report.route_policy,
        hex(response.resolution.replacement_ticket_digest.raw.bytes())
            == report.replacement_ticket_digest@,
        replacement.endpoint_id == report.replacement_endpoint_id,
        replacement.peer_authority_revision == report.replacement_peer_authority_revision,
        replacement.peer_device_count == report.replacement_peer_device_count,
        response.resolution.authorized_at_unix_seconds == report.authorized_at_unix_seconds,
        claim.confirmation_code@ == report.confirmation_code@,
        verified ==> report.verification_qr_status@ == "exact-match"@,
        !verified ==> report.verification_qr_status@ == "not-provided"@,
{
}

} // verus!
