//! The listing pipeline: the seekable-container decision, stream decoder
//! composition, and
//! dispatch to the container's listing adapter.

use vstd::prelude::*;

use crate::archive::{
    sevenz_list, sevenz_listing_of, spec_password, spec_zip_listing, tar_list, tar_listing_of,
    zip_list, Listing, ListingV,
};
use crate::codec::{decode_stream_layers, spec_decode_from};
use crate::error::{spec_is_io_family, Error, ErrorV};
use crate::format::{chain_wf, spec_container, CompressionFormat, FormatChain};
use crate::gate::{spec_gate_plan, GatePlan};
use crate::policy::{spec_wants_to_continue, user_wants_to_continue, QuestionAction, QuestionPolicy};

verus! {

/// Configuration for the listing presentation: tree or flat, with or without
/// per-entry metadata. It is consumed by the presentation collaborator and
/// does not affect decoding correctness — the pipeline's contract does not
/// mention it.
#[derive(Clone, Copy, Debug, PartialEq, Eq, Structural)]
pub struct ListOptions {
    pub tree: bool,
    pub show_metadata: bool,
}

/// Spec-level image of a [`ListOutcome`].
pub enum ListOutcomeV {
    Listed(ListingV),
    Declined,
    NeedsFileAccess(Option<Seq<u8>>),
}

/// How one listing operation ended, short of an error.
pub enum ListOutcome {
    /// The container was opened and enumerated.
    Listed(Listing),
    /// Buffering was required and the policy (or the user) refused:
    /// a clean early return with no entries and no error.
    Declined,
    /// The rar-like container can only be opened from a file on disk, which
    /// is I/O the caller must perform: from the original file when no bytes
    /// are carried here, else from a temporary file spilled with exactly
    /// these composed-decoder output bytes.
    NeedsFileAccess(Option<Vec<u8>>),
}

impl View for ListOutcome {
    type V = ListOutcomeV;

    open spec fn view(&self) -> ListOutcomeV {
        match self {
            ListOutcome::Listed(l) => ListOutcomeV::Listed(l@),
            ListOutcome::Declined => ListOutcomeV::Declined,
            ListOutcome::NeedsFileAccess(b) => ListOutcomeV::NeedsFileAccess(
                match b {
                    Option::Some(v) => Some(v@),
                    Option::None => None,
                },
            ),
        }
    }
}

/// The listing that the container at position 0 of the chain enumerates from
/// the given source bytes.
pub open spec fn spec_container_listing(
    container: CompressionFormat,
    source: Seq<u8>,
    pw: Option<Seq<u8>>,
) -> ListingV {
    match container {
        CompressionFormat::Tar => tar_listing_of(source),
        CompressionFormat::Zip => spec_zip_listing(source, pw),
        CompressionFormat::SevenZip => sevenz_listing_of(source, pw),
        _ => ListingV { entries: Seq::empty(), failure: None },
    }
}

/// Everything [`list_archive_contents`] promises, as one predicate over the
/// views of its inputs and its result.
///
/// The outcome of each decision path is pinned exactly; only the payload of a
/// composed-decoder failure is left at its error family, since it carries a
/// message produced by the failing codec.
pub open spec fn spec_list_post(
    raw: Seq<u8>,
    chain: Seq<CompressionFormat>,
    pw: Option<Seq<u8>>,
    policy: QuestionPolicy,
    answer_if_asked: bool,
    r: Result<ListOutcomeV, ErrorV>,
) -> bool {
    let plan = spec_gate_plan(chain);
    let decoded = spec_decode_from(chain, 1, raw);
    match plan {
        GatePlan::Direct => r == Result::<ListOutcomeV, ErrorV>::Ok(
            if chain[0] == CompressionFormat::Rar {
                ListOutcomeV::NeedsFileAccess(None)
            } else {
                ListOutcomeV::Listed(spec_container_listing(chain[0], raw, pw))
            },
        ),
        GatePlan::Stream => match decoded {
            Option::Some(d) => r == Result::<ListOutcomeV, ErrorV>::Ok(
                ListOutcomeV::Listed(tar_listing_of(d)),
            ),
            Option::None => r matches Err(e) && (e matches ErrorV::UnsupportedFormat { .. }
                || spec_is_io_family(e)),
        },
        GatePlan::BufferAfterConfirm(target) => if !spec_wants_to_continue(
            policy,
            answer_if_asked,
        ) {
            r == Result::<ListOutcomeV, ErrorV>::Ok(ListOutcomeV::Declined)
        } else {
            match decoded {
                Option::Some(d) => r == Result::<ListOutcomeV, ErrorV>::Ok(
                    if chain[0] == CompressionFormat::Rar {
                        ListOutcomeV::NeedsFileAccess(Some(d))
                    } else {
                        ListOutcomeV::Listed(spec_container_listing(chain[0], d, pw))
                    },
                ),
                Option::None => r matches Err(e) && (e matches ErrorV::UnsupportedFormat { .. }
                    || spec_is_io_family(e)),
            }
        },
    }
}

/// List the contents of an archive.
///
/// `raw` holds the bytes of the base source, already opened and read by the
/// caller; `chain` describes how to decode them, with the container at
/// position 0. The question policy is consulted exactly when the chain
/// requires buffering; `answer_if_asked` carries the interactive user's
/// reply and is read only when the policy is `Ask`.
///
/// A chain without a container layer must never reach the lister: that is a
/// broken precondition of the upstream format-detection collaborator, not a
/// recoverable runtime condition.
pub fn list_archive_contents(
    raw: &Vec<u8>,
    chain: &FormatChain,
    _list_options: ListOptions,
    password: Option<&Vec<u8>>,
    question_policy: QuestionPolicy,
    answer_if_asked: bool,
) -> (r: Result<ListOutcome, Error>)
    requires
        spec_container(chain@) is Some,
    ensures
        spec_list_post(
            raw@,
            chain@,
            spec_password(password),
            question_policy,
            answer_if_asked,
            match r {
                Result::Ok(o) => Result::Ok(o@),
                Result::Err(e) => Result::Err(e@),
            },
        ),
{
    proof {
        use_type_invariant(chain);
        FormatChain::lemma_wf(*chain);
    }
    let container = chain.format_at(0);
    match crate::gate::gate_plan(chain) {
        GatePlan::Direct => Ok(match container {
            CompressionFormat::Rar => ListOutcome::NeedsFileAccess(None),
            _ => ListOutcome::Listed(list_container(container, raw, password)),
        }),
        GatePlan::Stream => match decode_stream_layers(chain, raw) {
            Ok(d) => Ok(ListOutcome::Listed(tar_list(&d))),
            Err(e) => Err(e),
        },
        GatePlan::BufferAfterConfirm(_target) => {
            if !user_wants_to_continue(
                question_policy,
                QuestionAction::Decompression,
                answer_if_asked,
            ) {
                return Ok(ListOutcome::Declined);
            }
            match decode_stream_layers(chain, raw) {
                Ok(d) => Ok(match container {
                    CompressionFormat::Rar => ListOutcome::NeedsFileAccess(Some(d)),
                    _ => ListOutcome::Listed(list_container(container, &d, password)),
                }),
                Err(e) => Err(e),
            }
        },
    }
}

/// Composing the decoder chain and then immediately listing enumerates
/// exactly the entries that the container's own reader enumerates from the
/// prepared source, in the container's native order: the pipeline neither
/// re-sorts, drops nor invents entries.
pub proof fn lemma_listing_preserves_native_order(
    raw: Seq<u8>,
    chain: Seq<CompressionFormat>,
    pw: Option<Seq<u8>>,
    policy: QuestionPolicy,
    answer_if_asked: bool,
    r: Result<ListOutcomeV, ErrorV>,
)
    requires
        chain_wf(chain),
        spec_container(chain) is Some,
        spec_list_post(raw, chain, pw, policy, answer_if_asked, r),
        r matches Ok(ListOutcomeV::Listed(_)),
    ensures
        r == Result::<ListOutcomeV, ErrorV>::Ok(ListOutcomeV::Listed(
            spec_container_listing(chain[0], spec_decode_from(chain, 1, raw).unwrap(), pw),
        )),
{
    if chain.len() <= 1 {
        assert(spec_decode_from(chain, 1, raw) == Some(raw));
    }
}

/// Listing the same archive twice with the same inputs yields an identical
/// outcome: in particular, an identical sequence of entry records.
pub proof fn lemma_listing_deterministic(
    raw: Seq<u8>,
    chain: Seq<CompressionFormat>,
    pw: Option<Seq<u8>>,
    policy: QuestionPolicy,
    answer_if_asked: bool,
    r1: Result<ListOutcomeV, ErrorV>,
    r2: Result<ListOutcomeV, ErrorV>,
)
    requires
        spec_list_post(raw, chain, pw, policy, answer_if_asked, r1),
        spec_list_post(raw, chain, pw, policy, answer_if_asked, r2),
        r1 is Ok,
        r2 is Ok,
    ensures
        r1 == r2,
{
}

/// When the chain's plan does not buffer, the outcome is the same under every policy
/// and every interactive answer: the policy is consulted only on the
/// buffering path.
pub proof fn lemma_no_buffering_ignores_policy(
    raw: Seq<u8>,
    chain: Seq<CompressionFormat>,
    pw: Option<Seq<u8>>,
    policy1: QuestionPolicy,
    answer1: bool,
    policy2: QuestionPolicy,
    answer2: bool,
    r: Result<ListOutcomeV, ErrorV>,
)
    requires
        !spec_gate_plan(chain).spec_buffers(),
        spec_list_post(raw, chain, pw, policy1, answer1, r),
    ensures
        spec_list_post(raw, chain, pw, policy2, answer2, r),
{
}

/// When the plan requires buffering and the consulted policy refuses, the
/// whole operation ends as a clean early success: no entries, no error, and
/// nothing buffered.
pub proof fn lemma_refusal_is_clean_success(
    raw: Seq<u8>,
    chain: Seq<CompressionFormat>,
    pw: Option<Seq<u8>>,
    policy: QuestionPolicy,
    answer_if_asked: bool,
    r: Result<ListOutcomeV, ErrorV>,
)
    requires
        spec_gate_plan(chain).spec_buffers(),
        !spec_wants_to_continue(policy, answer_if_asked),
        spec_list_post(raw, chain, pw, policy, answer_if_asked, r),
    ensures
        r == Result::<ListOutcomeV, ErrorV>::Ok(ListOutcomeV::Declined),
{
}

/// Open the container at position 0 on a fully prepared source and enumerate
/// it. The rar-like container never reaches this point: it is handed back to
/// the caller as a file-access request.
fn list_container(
    container: CompressionFormat,
    source: &Vec<u8>,
    password: Option<&Vec<u8>>,
) -> (r: Listing)
    requires
        container == CompressionFormat::Tar || container == CompressionFormat::Zip || container
            == CompressionFormat::SevenZip,
    ensures
        r@ == spec_container_listing(container, source@, spec_password(password)),
{
    match container {
        CompressionFormat::Tar => tar_list(source),
        CompressionFormat::Zip => zip_list(source, password),
        _ => sevenz_list(source, password),
    }
}

} // verus!
