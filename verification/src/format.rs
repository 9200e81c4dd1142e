//! Format tags and validated format chains.

use vstd::prelude::*;
use vstd::string::StringExecFns;

use crate::error::Error;

verus! {

/// One recognized layer kind: either a container kind (bundles multiple named
/// entries) or a stream kind (transforms a single byte stream).
#[derive(Clone, Copy, Debug, PartialEq, Eq, Structural)]
pub enum CompressionFormat {
    Gzip,
    Bzip,
    Bzip3,
    Lz4,
    Lzma,
    Snappy,
    Zstd,
    Tar,
    Zip,
    Rar,
    SevenZip,
}

impl CompressionFormat {
    /// Container kinds bundle multiple named entries; everything else is a
    /// stream kind.
    pub open spec fn spec_is_archive(self) -> bool {
        match self {
            CompressionFormat::Tar
            | CompressionFormat::Zip
            | CompressionFormat::Rar
            | CompressionFormat::SevenZip => true,
            _ => false,
        }
    }

    /// Container kinds that fundamentally require random access into their
    /// source; only the tar-like container can be read as a forward stream.
    pub open spec fn spec_requires_seeking(self) -> bool {
        match self {
            CompressionFormat::Zip | CompressionFormat::Rar | CompressionFormat::SevenZip => true,
            _ => false,
        }
    }

    /// Whether this tag is a container kind.
    pub fn is_archive(&self) -> (r: bool)
        ensures
            r == self.spec_is_archive(),
    {
        match *self {
            CompressionFormat::Tar
            | CompressionFormat::Zip
            | CompressionFormat::Rar
            | CompressionFormat::SevenZip => true,
            _ => false,
        }
    }

    /// Whether this tag is a container kind that needs random access.
    pub fn requires_seeking(&self) -> (r: bool)
        ensures
            r == self.spec_requires_seeking(),
    {
        match *self {
            CompressionFormat::Zip | CompressionFormat::Rar | CompressionFormat::SevenZip => true,
            _ => false,
        }
    }
}

/// A validated, ordered list of format tags describing how to decode a file.
///
/// Position 0 is the outermost layer: the container, if the chain has one.
/// Every later position is a stream kind. During decoding, the stream layers
/// are unwrapped from the last position toward position 1, and the container
/// layer is opened last, on the fully unwrapped source.
#[derive(Debug)]
pub struct FormatChain {
    formats: Vec<CompressionFormat>,
}

/// The validation invariant of a chain: it is non-empty, and no container kind
/// stands anywhere but position 0. (So at most one container appears, and only
/// as the outermost layer; position 0 itself may also be a stream kind, for a
/// plain compressed file with no container.)
pub open spec fn chain_wf(s: Seq<CompressionFormat>) -> bool {
    &&& s.len() > 0
    &&& forall|i: int| 1 <= i < s.len() ==> !(#[trigger] s[i]).spec_is_archive()
}

/// The container of a chain, if it has one.
pub open spec fn spec_container(s: Seq<CompressionFormat>) -> Option<CompressionFormat> {
    if s.len() > 0 && s[0].spec_is_archive() {
        Some(s[0])
    } else {
        None
    }
}

impl View for FormatChain {
    type V = Seq<CompressionFormat>;

    closed spec fn view(&self) -> Seq<CompressionFormat> {
        self.formats@
    }
}

impl FormatChain {
    /// Every value of this type satisfies the validation invariant.
    #[verifier::type_invariant]
    pub closed spec fn wf(self) -> bool {
        chain_wf(self.formats@)
    }

    /// The type invariant, stated over the chain's view.
    pub proof fn lemma_wf(c: FormatChain)
        requires
            c.wf(),
        ensures
            chain_wf(c@),
    {
    }

    /// Validate and normalize an ordered list of format tags into a chain.
    ///
    /// Rejects, with `InvalidFormat`, an empty list and any list holding a
    /// container kind in a non-zero position — which also rejects every list
    /// with more than one container kind.
    pub fn new(formats: Vec<CompressionFormat>) -> (r: Result<FormatChain, Error>)
        ensures
            chain_wf(formats@) ==> (r matches Ok(c) && c@ == formats@),
            !chain_wf(formats@) ==> (r matches Err(e) && e@ matches crate::error::ErrorV::InvalidFormat { .. }),
    {
        if formats.len() == 0 {
            return Err(Error::InvalidFormat {
                reason: String::from_str("the format chain is empty"),
            });
        }
        let mut i: usize = 1;
        while i < formats.len()
            invariant
                1 <= i <= formats.len(),
                forall|j: int| 1 <= j < i ==> !(#[trigger] formats@[j]).spec_is_archive(),
            decreases formats.len() - i,
        {
            if formats[i].is_archive() {
                return Err(Error::InvalidFormat {
                    reason: String::from_str(
                        "a container format can only be the outermost layer of the chain",
                    ),
                });
            }
            i += 1;
        }
        Ok(FormatChain { formats })
    }

    /// How many layers the chain has.
    pub fn len(&self) -> (n: usize)
        ensures
            n == self@.len(),
    {
        self.formats.len()
    }

    /// The tag at one position of the chain.
    pub fn format_at(&self, i: usize) -> (f: CompressionFormat)
        requires
            i < self@.len(),
        ensures
            f == self@[i as int],
    {
        self.formats[i]
    }

    /// The chain's container kind, if position 0 holds one.
    pub fn container(&self) -> (r: Option<CompressionFormat>)
        ensures
            r == spec_container(self@),
    {
        proof {
            use_type_invariant(self);
        }
        let first = self.formats[0];
        if first.is_archive() {
            Some(first)
        } else {
            None
        }
    }
}

} // verus!
