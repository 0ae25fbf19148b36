//! The upstream catalogue as this relay holds it: a show, its episodes, and
//! the two shapes an upstream answer can take.

use vstd::prelude::*;

verus! {

/// The text of an optional string, empty where there is none.
pub open spec fn text_or_empty(text: Option<String>) -> Seq<char> {
    match text {
        Some(s) => s@,
        None => Seq::<char>::empty(),
    }
}

/// Turns a field that may be null on the wire into plain text.
pub fn or_empty(text: Option<String>) -> (out: String)
    ensures
        out@ == text_or_empty(text),
{
    match text {
        Some(s) => s,
        None => String::new(),
    }
}

/// Display names of a show or an episode.
#[derive(Clone, Debug, PartialEq, Eq)]
pub struct PodTitles {
    pub primary: String,
    pub secondary: String,
}

pub struct TitlesView {
    pub primary: Seq<char>,
    pub secondary: Seq<char>,
}

impl View for PodTitles {
    type V = TitlesView;

    open spec fn view(&self) -> TitlesView {
        TitlesView { primary: self.primary@, secondary: self.secondary@ }
    }
}

impl PodTitles {
    /// Titles from wire fields; a null field becomes the empty string.
    pub fn from_nullable(primary: Option<String>, secondary: Option<String>) -> (titles: Self)
        ensures
            titles@.primary == text_or_empty(primary),
            titles@.secondary == text_or_empty(secondary),
    {
        PodTitles { primary: or_empty(primary), secondary: or_empty(secondary) }
    }
}

/// Descriptions of a show or an episode, in three lengths.
#[derive(Clone, Debug, PartialEq, Eq)]
pub struct PodSynopses {
    pub short: String,
    pub medium: String,
    pub long: String,
}

pub struct SynopsesView {
    pub short: Seq<char>,
    pub medium: Seq<char>,
    pub long: Seq<char>,
}

impl View for PodSynopses {
    type V = SynopsesView;

    open spec fn view(&self) -> SynopsesView {
        SynopsesView { short: self.short@, medium: self.medium@, long: self.long@ }
    }
}

impl PodSynopses {
    /// Synopses from wire fields; a null field becomes the empty string.
    pub fn from_nullable(
        short: Option<String>,
        medium: Option<String>,
        long: Option<String>,
    ) -> (synopses: Self)
        ensures
            synopses@.short == text_or_empty(short),
            synopses@.medium == text_or_empty(medium),
            synopses@.long == text_or_empty(long),
    {
        PodSynopses { short: or_empty(short), medium: or_empty(medium), long: or_empty(long) }
    }
}

/// Playing time: whole seconds, and the label upstream shows for it.
#[derive(Clone, Debug, PartialEq, Eq)]
pub struct PodDuration {
    pub value: u64,
    pub label: String,
}

pub struct DurationView {
    pub value: nat,
    pub label: Seq<char>,
}

impl View for PodDuration {
    type V = DurationView;

    open spec fn view(&self) -> DurationView {
        DurationView { value: self.value as nat, label: self.label@ }
    }
}

/// One encoded rendition of an episode.
#[derive(Clone, Debug, PartialEq, Eq)]
pub struct PodQualityVariant {
    pub bitrate: u32,
    pub file_url: String,
    pub file_size: u32,
    pub label: String,
}

pub struct QualityVariantView {
    pub bitrate: nat,
    pub file_url: Seq<char>,
    pub file_size: nat,
    pub label: Seq<char>,
}

impl View for PodQualityVariant {
    type V = QualityVariantView;

    open spec fn view(&self) -> QualityVariantView {
        QualityVariantView {
            bitrate: self.bitrate as nat,
            file_url: self.file_url@,
            file_size: self.file_size as nat,
            label: self.label@,
        }
    }
}

/// The three renditions of an episode.
#[derive(Clone, Debug, PartialEq, Eq)]
pub struct PodQualityVariants {
    pub low: PodQualityVariant,
    pub medium: PodQualityVariant,
    pub high: PodQualityVariant,
}

pub struct QualityVariantsView {
    pub low: QualityVariantView,
    pub medium: QualityVariantView,
    pub high: QualityVariantView,
}

impl View for PodQualityVariants {
    type V = QualityVariantsView;

    open spec fn view(&self) -> QualityVariantsView {
        QualityVariantsView { low: self.low@, medium: self.medium@, high: self.high@ }
    }
}

/// How an episode can be downloaded.
#[derive(Clone, Debug, PartialEq, Eq)]
pub struct PodDownload {
    pub download_type: String,
    pub quality_variants: PodQualityVariants,
}

pub struct DownloadView {
    pub download_type: Seq<char>,
    pub quality_variants: QualityVariantsView,
}

impl View for PodDownload {
    type V = DownloadView;

    open spec fn view(&self) -> DownloadView {
        DownloadView {
            download_type: self.download_type@,
            quality_variants: self.quality_variants@,
        }
    }
}

/// When an episode was released: the date as upstream writes it, and its label.
#[derive(Clone, Debug, PartialEq, Eq)]
pub struct PodRelease {
    pub date: String,
    pub label: String,
}

pub struct ReleaseView {
    pub date: Seq<char>,
    pub label: Seq<char>,
}

impl View for PodRelease {
    type V = ReleaseView;

    open spec fn view(&self) -> ReleaseView {
        ReleaseView { date: self.date@, label: self.label@ }
    }
}

/// One installment of a show.
#[derive(Clone, Debug, PartialEq, Eq)]
pub struct PodEpisode {
    pub titles: PodTitles,
    pub synopses: PodSynopses,
    pub image_url: String,
    pub duration: PodDuration,
    pub download: PodDownload,
    pub release: PodRelease,
}

pub struct EpisodeView {
    pub titles: TitlesView,
    pub synopses: SynopsesView,
    pub image_url: Seq<char>,
    pub duration: DurationView,
    pub download: DownloadView,
    pub release: ReleaseView,
}

impl View for PodEpisode {
    type V = EpisodeView;

    open spec fn view(&self) -> EpisodeView {
        EpisodeView {
            titles: self.titles@,
            synopses: self.synopses@,
            image_url: self.image_url@,
            duration: self.duration@,
            download: self.download@,
            release: self.release@,
        }
    }
}

/// The episodes of a show, in the order upstream gave them.
#[derive(Clone, Debug, PartialEq, Eq)]
pub struct PodEpisodes {
    pub data: Vec<PodEpisode>,
}

impl View for PodEpisodes {
    type V = Seq<EpisodeView>;

    open spec fn view(&self) -> Seq<EpisodeView> {
        Seq::new(self.data@.len(), |i: int| self.data@[i]@)
    }
}

/// Show-level metadata.
#[derive(Clone, Debug, PartialEq, Eq)]
pub struct PodContainer {
    pub titles: PodTitles,
    pub synopses: PodSynopses,
    pub image_url: String,
}

pub struct ContainerView {
    pub titles: TitlesView,
    pub synopses: SynopsesView,
    pub image_url: Seq<char>,
}

impl View for PodContainer {
    type V = ContainerView;

    open spec fn view(&self) -> ContainerView {
        ContainerView {
            titles: self.titles@,
            synopses: self.synopses@,
            image_url: self.image_url@,
        }
    }
}

/// One entry of the list upstream sends in place of a payload.
#[derive(Clone, Debug, PartialEq, Eq)]
pub struct UpstreamError {
    pub id: String,
    pub href: String,
    pub status: u32,
    pub message: String,
    pub replied_at: String,
}

/// What a transport error says where nothing else is known of it.
pub const UNDESCRIBED: &'static str = "upstream transport error";

/// A failure to reach upstream or to read what it sent.
#[derive(Clone, Debug, PartialEq, Eq)]
pub struct TransportError {
    pub description: String,
}

impl TransportError {
    /// A transport error says what went wrong.
    pub open spec fn wf(&self) -> bool {
        self.description@.len() > 0
    }

    /// What an error made from `description` says: the description, or the
    /// fixed text where the description is empty.
    pub open spec fn described(description: Seq<char>) -> Seq<char> {
        if description.len() > 0 {
            description
        } else {
            UNDESCRIBED@
        }
    }

    /// An error with the given description.
    pub fn new(description: String) -> (error: TransportError)
        ensures
            error.wf(),
            error.description@ == Self::described(description@),
    {
        proof {
            reveal_strlit("upstream transport error");
        }
        if description.as_str().unicode_len() == 0 {
            TransportError { description: String::from_str(UNDESCRIBED) }
        } else {
            TransportError { description }
        }
    }
}

/// A well-formed upstream answer: the payload, or the errors reported in
/// its place.
#[derive(Clone, Debug, PartialEq, Eq)]
pub enum Envelope<T> {
    Success(T),
    Failure(Vec<UpstreamError>),
}

impl<T> Envelope<T> {
    /// Chooses between the two shapes a body can have, given how decoding it
    /// as each went: `payload` holds the payload, or what the decoder said
    /// against it; `errors` holds the error list where the body was one.
    ///
    /// The payload's shape comes first. A body of neither shape is a
    /// transport error, described by what the decoder said.
    pub fn from_attempts(payload: Result<T, String>, errors: Option<Vec<UpstreamError>>) -> (answer:
        Result<Envelope<T>, TransportError>)
        ensures
            match (payload, errors) {
                (Ok(p), _) => answer == Ok::<Envelope<T>, TransportError>(Envelope::Success(p)),
                (Err(_), Some(e)) => answer == Ok::<Envelope<T>, TransportError>(
                    Envelope::Failure(e),
                ),
                (Err(said), None) => answer matches Err(t) && t.wf() && t.description@
                    == TransportError::described(said@),
            },
    {
        match payload {
            Ok(p) => Ok(Envelope::Success(p)),
            Err(said) => match errors {
                Some(e) => Ok(Envelope::Failure(e)),
                None => Err(TransportError::new(said)),
            },
        }
    }
}

/// A field that was null on the wire reads as the empty string, and so never
/// as the word `null`.
pub proof fn lemma_null_reads_as_empty()
    ensures
        text_or_empty(None).len() == 0,
        text_or_empty(None) != "null"@,
{
    reveal_strlit("null");
    assert("null"@.len() == 4);
}

} // verus!
