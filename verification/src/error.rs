//! The unified error taxonomy: every failure of the pipeline is one variant of
//! [`Error`], rendered for the user through [`FinalError`].

use vstd::prelude::*;
use vstd::string::StringExecFns;

verus! {

/// Spec-level image of a [`FinalError`].
pub struct FinalErrorV {
    pub title: Seq<char>,
    pub details: Seq<Seq<char>>,
    pub hints: Seq<Seq<char>>,
}

/// Pretty final error message for end users: one title line, zero or more
/// detail lines, zero or more hint lines.
#[derive(Debug)]
pub struct FinalError {
    /// Should be made of just one line.
    title: String,
    /// Shown as an unnumbered list.
    details: Vec<String>,
    /// Shown at the end to give hints on how to work around this error, if it is fixable.
    hints: Vec<String>,
}

/// The views of a list of strings.
pub open spec fn views_of(ss: Seq<String>) -> Seq<Seq<char>> {
    ss.map_values(|s: String| s@)
}

impl View for FinalError {
    type V = FinalErrorV;

    closed spec fn view(&self) -> FinalErrorV {
        FinalErrorV {
            title: self.title@,
            details: views_of(self.details@),
            hints: views_of(self.hints@),
        }
    }
}

/// What [`FinalError::with_title`] builds.
pub open spec fn spec_with_title(title: Seq<char>) -> FinalErrorV {
    FinalErrorV { title, details: Seq::empty(), hints: Seq::empty() }
}

/// What [`FinalError::detail`] builds.
pub open spec fn spec_detail(fe: FinalErrorV, detail: Seq<char>) -> FinalErrorV {
    FinalErrorV { details: fe.details.push(detail), ..fe }
}

/// What [`FinalError::hint`] builds.
pub open spec fn spec_hint(fe: FinalErrorV, hint: Seq<char>) -> FinalErrorV {
    FinalErrorV { hints: fe.hints.push(hint), ..fe }
}

impl FinalError {
    /// Only constructor.
    #[must_use]
    pub fn with_title(title: String) -> (r: Self)
        ensures
            r@ == spec_with_title(title@),
    {
        let r = FinalError { title, details: Vec::new(), hints: Vec::new() };
        proof {
            assert(r@.details =~= Seq::<Seq<char>>::empty());
            assert(r@.hints =~= Seq::<Seq<char>>::empty());
        }
        r
    }

    /// Add one detail line, can have multiple.
    #[must_use]
    pub fn detail(self, detail: String) -> (r: Self)
        ensures
            r@ == spec_detail(self@, detail@),
    {
        let FinalError { title, mut details, hints } = self;
        let ghost old_details = details@;
        details.push(detail);
        let r = FinalError { title, details, hints };
        proof {
            assert(views_of(details@) =~= views_of(old_details).push(detail@));
        }
        r
    }

    /// Add one hint line, can have multiple.
    #[must_use]
    pub fn hint(self, hint: String) -> (r: Self)
        ensures
            r@ == spec_hint(self@, hint@),
    {
        let FinalError { title, details, mut hints } = self;
        let ghost old_hints = hints@;
        hints.push(hint);
        let r = FinalError { title, details, hints };
        proof {
            assert(views_of(hints@) =~= views_of(old_hints).push(hint@));
        }
        r
    }
}

impl Default for FinalError {
    /// An empty message: no title, no details, no hints.
    fn default() -> (r: Self)
        ensures
            r@ == spec_with_title(Seq::<char>::empty()),
    {
        FinalError::with_title(String::new())
    }
}

impl Clone for FinalError {
    fn clone(&self) -> (r: Self)
        ensures
            r@ == self@,
    {
        let mut details: Vec<String> = Vec::new();
        let mut i: usize = 0;
        while i < self.details.len()
            invariant
                i <= self.details.len(),
                details@ =~= self.details@.take(i as int),
            decreases self.details.len() - i,
        {
            details.push(self.details[i].clone());
            proof {
                assert(details@ =~= self.details@.take(i + 1));
            }
            i += 1;
        }
        let mut hints: Vec<String> = Vec::new();
        let mut j: usize = 0;
        while j < self.hints.len()
            invariant
                j <= self.hints.len(),
                hints@ =~= self.hints@.take(j as int),
            decreases self.hints.len() - j,
        {
            hints.push(self.hints[j].clone());
            proof {
                assert(hints@ =~= self.hints@.take(j + 1));
            }
            j += 1;
        }
        let r = FinalError { title: self.title.clone(), details, hints };
        proof {
            assert(details@ =~= self.details@);
            assert(hints@ =~= self.hints@);
        }
        r
    }
}

/// The rendered detail lines: each one on its own line, as an unnumbered
/// list item.
pub open spec fn spec_render_details(details: Seq<Seq<char>>) -> Seq<char>
    decreases details.len(),
{
    if details.len() == 0 {
        Seq::empty()
    } else {
        spec_render_details(details.drop_last()) + "\n - "@ + details.last()
    }
}

/// The rendered hint lines outside accessible mode: each prefixed with its
/// own `hint:` marker.
pub open spec fn spec_render_hints_plain(hints: Seq<Seq<char>>) -> Seq<char>
    decreases hints.len(),
{
    if hints.len() == 0 {
        Seq::empty()
    } else {
        spec_render_hints_plain(hints.drop_last()) + "\nhint: "@ + hints.last()
    }
}

/// The rendered hint lines in accessible mode: one `hints:` header, then the
/// bare lines, to reduce redundant output for text-to-speech systems.
pub open spec fn spec_render_hints_accessible(hints: Seq<Seq<char>>) -> Seq<char>
    decreases hints.len(),
{
    if hints.len() == 0 {
        Seq::empty()
    } else {
        spec_render_hints_accessible(hints.drop_last()) + "\n"@ + hints.last()
    }
}

/// The whole rendered message: one title line, the detail lines, and — when
/// there are hints — a separating blank line and the hint lines. Accessible
/// mode suppresses the purely decorative brackets around the error marker
/// but preserves all information.
pub open spec fn spec_render(fe: FinalErrorV, accessible: bool) -> Seq<char> {
    (if accessible {
        "ERROR: "@
    } else {
        "[ERROR] "@
    }) + fe.title + spec_render_details(fe.details) + (if fe.hints.len() == 0 {
        Seq::empty()
    } else if accessible {
        "\n"@ + "\nhints:"@ + spec_render_hints_accessible(fe.hints)
    } else {
        "\n"@ + spec_render_hints_plain(fe.hints)
    })
}

impl FinalError {
    /// Render this message as one string: pure formatting, no side effects.
    pub fn render(&self, accessible: bool) -> (r: String)
        ensures
            r@ == spec_render(self@, accessible),
    {
        let mut out = if accessible {
            String::from_str("ERROR: ")
        } else {
            String::from_str("[ERROR] ")
        };
        out.append(self.title.as_str());
        let ghost head = out@;
        let ghost dv = views_of(self.details@);
        let mut i: usize = 0;
        while i < self.details.len()
            invariant
                i <= self.details.len(),
                dv == views_of(self.details@),
                out@ == head + spec_render_details(dv.take(i as int)),
            decreases self.details.len() - i,
        {
            out.append("\n - ");
            out.append(self.details[i].as_str());
            proof {
                assert(dv.take(i + 1).drop_last() =~= dv.take(i as int));
                assert(dv.take(i + 1).last() == self.details@[i as int]@);
                assert(out@ =~= head + spec_render_details(dv.take(i + 1)));
            }
            i += 1;
        }
        proof {
            assert(dv.take(self.details@.len() as int) =~= dv);
        }
        let ghost mid = out@;
        if self.hints.len() > 0 {
            let ghost hv = views_of(self.hints@);
            out.append("\n");
            if accessible {
                out.append("\nhints:");
                proof {
                    assert(out@ =~= mid + "\n"@ + "\nhints:"@);
                }
            }
            let ghost hint_base = out@;
            let mut j: usize = 0;
            while j < self.hints.len()
                invariant
                    j <= self.hints.len(),
                    hv == views_of(self.hints@),
                    accessible ==> out@ == hint_base + spec_render_hints_accessible(
                        hv.take(j as int),
                    ),
                    !accessible ==> out@ == hint_base + spec_render_hints_plain(hv.take(j as int)),
                decreases self.hints.len() - j,
            {
                if accessible {
                    out.append("\n");
                } else {
                    out.append("\nhint: ");
                }
                out.append(self.hints[j].as_str());
                proof {
                    assert(hv.take(j + 1).drop_last() =~= hv.take(j as int));
                    assert(hv.take(j + 1).last() == self.hints@[j as int]@);
                    if accessible {
                        assert(out@ =~= hint_base + spec_render_hints_accessible(hv.take(j + 1)));
                    } else {
                        assert(out@ =~= hint_base + spec_render_hints_plain(hv.take(j + 1)));
                    }
                }
                j += 1;
            }
            proof {
                assert(hv.take(self.hints@.len() as int) =~= hv);
                if accessible {
                    assert(out@ =~= spec_render(self@, true));
                } else {
                    assert(out@ =~= spec_render(self@, false));
                }
            }
        } else {
            proof {
                assert(out@ =~= spec_render(self@, accessible));
            }
        }
        out
    }
}

/// Spec-level image of an [`Error`].
#[allow(inconsistent_fields)]
pub enum ErrorV {
    IoError { reason: Seq<char> },
    Lz4Error { reason: Seq<char> },
    NotFound { error_title: Seq<char> },
    AlreadyExists { error_title: Seq<char> },
    InvalidZipArchive { reason: Seq<char> },
    PermissionDenied { error_title: Seq<char> },
    UnsupportedZipArchive { reason: Seq<char> },
    CompressingRootFolder,
    WalkdirError { reason: Seq<char> },
    Custom { reason: FinalErrorV },
    InvalidFormat { reason: Seq<char> },
    SevenzipError { reason: Seq<char> },
    UnsupportedFormat { reason: Seq<char> },
    InvalidPassword { reason: Seq<char> },
    UnrarError { reason: Seq<char> },
}

/// All errors that the listing pipeline can produce.
#[allow(inconsistent_fields)]
#[derive(Debug)]
pub enum Error {
    /// Not every I/O error: some are refined into the variants below.
    IoError { reason: String },
    /// A failure of the LZ4 frame decoder.
    Lz4Error { reason: String },
    /// An I/O error whose condition was not-found.
    NotFound { error_title: String },
    /// An I/O error whose condition was already-exists.
    AlreadyExists { error_title: String },
    /// Malformed bytes for the zip-like container kind.
    InvalidZipArchive { reason: String },
    /// An I/O error whose condition was permission-denied.
    PermissionDenied { error_title: String },
    /// Recognised zip-like container, but an unsupported variant of it.
    UnsupportedZipArchive { reason: String },
    /// Guard against compressing the root directory (encode-side; kept for completeness).
    CompressingRootFolder,
    /// A directory-walk failure (encode-side; kept for completeness).
    WalkdirError { reason: String },
    /// Custom and unique errors are reported in this variant.
    Custom { reason: FinalError },
    /// An invalid format chain.
    InvalidFormat { reason: String },
    /// A failure of the 7z-like container reader.
    SevenzipError { reason: String },
    /// Recognised but unsupported format.
    UnsupportedFormat { reason: String },
    /// Invalid password provided.
    InvalidPassword { reason: String },
    /// A failure of the rar-like container reader.
    UnrarError { reason: String },
}

impl View for Error {
    type V = ErrorV;

    open spec fn view(&self) -> ErrorV {
        match self {
            Error::IoError { reason } => ErrorV::IoError { reason: reason@ },
            Error::Lz4Error { reason } => ErrorV::Lz4Error { reason: reason@ },
            Error::NotFound { error_title } => ErrorV::NotFound { error_title: error_title@ },
            Error::AlreadyExists { error_title } => ErrorV::AlreadyExists { error_title: error_title@ },
            Error::InvalidZipArchive { reason } => ErrorV::InvalidZipArchive { reason: reason@ },
            Error::PermissionDenied { error_title } => ErrorV::PermissionDenied { error_title: error_title@ },
            Error::UnsupportedZipArchive { reason } => ErrorV::UnsupportedZipArchive { reason: reason@ },
            Error::CompressingRootFolder => ErrorV::CompressingRootFolder,
            Error::WalkdirError { reason } => ErrorV::WalkdirError { reason: reason@ },
            Error::Custom { reason } => ErrorV::Custom { reason: reason@ },
            Error::InvalidFormat { reason } => ErrorV::InvalidFormat { reason: reason@ },
            Error::SevenzipError { reason } => ErrorV::SevenzipError { reason: reason@ },
            Error::UnsupportedFormat { reason } => ErrorV::UnsupportedFormat { reason: reason@ },
            Error::InvalidPassword { reason } => ErrorV::InvalidPassword { reason: reason@ },
            Error::UnrarError { reason } => ErrorV::UnrarError { reason: reason@ },
        }
    }
}

/// The operating condition behind an I/O failure, as refined by the taxonomy.
#[derive(Clone, Copy, Debug, PartialEq, Eq, Structural)]
pub enum IoCondition {
    NotFound,
    PermissionDenied,
    AlreadyExists,
    Other,
}

/// How an I/O failure is refined into the taxonomy by its condition.
pub open spec fn spec_from_io(condition: IoCondition, message: Seq<char>) -> ErrorV {
    match condition {
        IoCondition::NotFound => ErrorV::NotFound { error_title: message },
        IoCondition::PermissionDenied => ErrorV::PermissionDenied { error_title: message },
        IoCondition::AlreadyExists => ErrorV::AlreadyExists { error_title: message },
        IoCondition::Other => ErrorV::IoError { reason: message },
    }
}

/// Whether an error is one of the four I/O-derived variants.
pub open spec fn spec_is_io_family(e: ErrorV) -> bool {
    e matches ErrorV::IoError { .. } || e matches ErrorV::NotFound { .. }
        || e matches ErrorV::PermissionDenied { .. } || e matches ErrorV::AlreadyExists { .. }
}

impl Error {
    /// Refine a lower-level I/O failure, given as its condition and rendered
    /// message, into exactly one taxonomy variant.
    pub fn from_io_parts(condition: IoCondition, message: String) -> (r: Error)
        ensures
            r@ == spec_from_io(condition, message@),
    {
        match condition {
            IoCondition::NotFound => Error::NotFound { error_title: message },
            IoCondition::PermissionDenied => Error::PermissionDenied { error_title: message },
            IoCondition::AlreadyExists => Error::AlreadyExists { error_title: message },
            IoCondition::Other => Error::IoError { reason: message },
        }
    }
}

impl From<FinalError> for Error {
    /// A finished message with no dedicated variant is carried as `Custom`.
    fn from(err: FinalError) -> (r: Self)
        ensures
            r == (Error::Custom { reason: err }),
    {
        Error::Custom { reason: err }
    }
}

impl vstd::std_specs::convert::FromSpecImpl<FinalError> for Error {
    open spec fn obeys_from_spec() -> bool {
        true
    }

    open spec fn from_spec(err: FinalError) -> Self {
        Error::Custom { reason: err }
    }
}

/// The [`FinalError`] that each taxonomy variant renders as.
pub open spec fn spec_to_final(e: ErrorV) -> FinalErrorV {
    match e {
        ErrorV::WalkdirError { reason } => spec_with_title(reason),
        ErrorV::NotFound { error_title } => spec_detail(spec_with_title(error_title), "File not found"@),
        ErrorV::CompressingRootFolder => spec_hint(
            spec_detail(
                spec_with_title("It seems you're trying to compress the root folder."@),
                "This is unadvisable since ouch does compressions in-memory."@,
            ),
            "Use a more appropriate tool for this, such as rsync."@,
        ),
        ErrorV::IoError { reason } => spec_with_title(reason),
        ErrorV::Lz4Error { reason } => spec_with_title(reason),
        ErrorV::AlreadyExists { error_title } => spec_detail(spec_with_title(error_title), "File already exists"@),
        ErrorV::InvalidZipArchive { reason } => spec_detail(spec_with_title("Invalid zip archive"@), reason),
        ErrorV::PermissionDenied { error_title } => spec_detail(spec_with_title(error_title), "Permission denied"@),
        ErrorV::UnsupportedZipArchive { reason } => spec_detail(spec_with_title("Unsupported zip archive"@), reason),
        ErrorV::InvalidFormat { reason } => spec_detail(spec_with_title("Invalid archive format"@), reason),
        ErrorV::Custom { reason } => reason,
        ErrorV::SevenzipError { reason } => spec_detail(spec_with_title("7z error"@), reason),
        ErrorV::UnsupportedFormat { reason } => spec_detail(spec_with_title("Recognised but unsupported format"@), reason),
        ErrorV::InvalidPassword { reason } => spec_detail(spec_with_title("Invalid password"@), reason),
        ErrorV::UnrarError { reason } => spec_detail(spec_with_title("Unrar error"@), reason),
    }
}

impl Error {
    /// Convert this error into the pretty message shown to the user.
    pub fn to_final_error(&self) -> (r: FinalError)
        ensures
            r@ == spec_to_final(self@),
    {
        match self {
            Error::WalkdirError { reason } => FinalError::with_title(reason.clone()),
            Error::NotFound { error_title } => FinalError::with_title(error_title.clone())
                .detail(String::from_str("File not found")),
            Error::CompressingRootFolder => FinalError::with_title(
                String::from_str("It seems you're trying to compress the root folder."),
            )
                .detail(String::from_str("This is unadvisable since ouch does compressions in-memory."))
                .hint(String::from_str("Use a more appropriate tool for this, such as rsync.")),
            Error::IoError { reason } => FinalError::with_title(reason.clone()),
            Error::Lz4Error { reason } => FinalError::with_title(reason.clone()),
            Error::AlreadyExists { error_title } => FinalError::with_title(error_title.clone())
                .detail(String::from_str("File already exists")),
            Error::InvalidZipArchive { reason } => FinalError::with_title(
                String::from_str("Invalid zip archive"),
            ).detail(reason.clone()),
            Error::PermissionDenied { error_title } => FinalError::with_title(error_title.clone())
                .detail(String::from_str("Permission denied")),
            Error::UnsupportedZipArchive { reason } => FinalError::with_title(
                String::from_str("Unsupported zip archive"),
            ).detail(reason.clone()),
            Error::InvalidFormat { reason } => FinalError::with_title(
                String::from_str("Invalid archive format"),
            ).detail(reason.clone()),
            Error::Custom { reason } => reason.clone(),
            Error::SevenzipError { reason } => FinalError::with_title(
                String::from_str("7z error"),
            ).detail(reason.clone()),
            Error::UnsupportedFormat { reason } => FinalError::with_title(
                String::from_str("Recognised but unsupported format"),
            ).detail(reason.clone()),
            Error::InvalidPassword { reason } => FinalError::with_title(
                String::from_str("Invalid password"),
            ).detail(reason.clone()),
            Error::UnrarError { reason } => FinalError::with_title(
                String::from_str("Unrar error"),
            ).detail(reason.clone()),
        }
    }

    /// Render this error as the user-facing message block: pure formatting;
    /// whether to terminate afterwards is the top-level caller's decision.
    pub fn render(&self, accessible: bool) -> (r: String)
        ensures
            r@ == spec_render(spec_to_final(self@), accessible),
    {
        self.to_final_error().render(accessible)
    }
}

} // verus!
