use vstd::prelude::*;
use crate::platform::{
    PlatformTag,
    archive_file_name,
    archive_name,
    binary_path,
    binary_relative_path,
};

verus! {

/// What serde_json makes of a release-metadata body: `None` where the body
/// is not JSON, `Some(None)` where it has no string `tag_name`.
pub uninterp spec fn release_tag_of(body: Seq<u8>) -> Option<Option<Seq<char>>>;

/// Relies on serde_json::from_slice to decode the body, and on
/// Value::get and Value::as_str to read its `tag_name` field.
#[verifier::external_body]
fn parse_release_tag(body: &[u8]) -> (r: Option<Option<String>>)
    ensures
        r is None <==> release_tag_of(body@) is None,
        r matches Some(None) <==> release_tag_of(body@) matches Some(None),
        r matches Some(Some(t)) ==> release_tag_of(body@) == Some(Some(t@)),
{
    match serde_json::from_slice::<serde_json::Value>(body) {
        Ok(v) => Some(v.get("tag_name").and_then(|t| t.as_str()).map(|t| t.to_owned())),
        Err(_) => None,
    }
}

#[derive(Clone, Copy, PartialEq, Eq, Structural, Debug)]
pub enum ProvisionError {
    Network,
    Metadata,
    Filesystem,
    Archive,
}

/// The outcome of the last action, handed back by whoever performed it.
pub enum Event {
    /// The release-metadata body.
    Fetched(Vec<u8>),
    /// The installed-version record's content (empty when nothing is installed).
    RecordRead(String),
    Succeeded,
    Failed,
}

pub enum Action {
    FetchMetadata,
    ReadRecord,
    RemoveInstall,
    Download { url: String, archive: String },
    CreateInstallDir,
    Extract { archive: String },
    DeleteArchive,
    WriteRecord(String),
    /// Provisioning is over; the binary stands at this relative path.
    Done(String),
    Fail(ProvisionError),
}

pub enum Phase {
    AwaitMetadata,
    AwaitRecord(String),
    AwaitRemove(String),
    AwaitDownload(String),
    AwaitCreateDir(String),
    AwaitExtract(String),
    AwaitCleanup(String, Option<ProvisionError>),
    AwaitWrite(String),
    Finished,
}

pub enum EventV {
    Fetched(Seq<u8>),
    RecordRead(Seq<char>),
    Succeeded,
    Failed,
}

pub enum Act {
    FetchMetadata,
    ReadRecord,
    RemoveInstall,
    Download { url: Seq<char>, archive: Seq<char> },
    CreateInstallDir,
    Extract { archive: Seq<char> },
    DeleteArchive,
    WriteRecord(Seq<char>),
    Done(Seq<char>),
    Fail(ProvisionError),
}

pub enum Stage {
    AwaitMetadata,
    AwaitRecord(Seq<char>),
    AwaitRemove(Seq<char>),
    AwaitDownload(Seq<char>),
    AwaitCreateDir(Seq<char>),
    AwaitExtract(Seq<char>),
    AwaitCleanup(Seq<char>, Option<ProvisionError>),
    AwaitWrite(Seq<char>),
    Finished,
}

impl View for Event {
    type V = EventV;

    open spec fn view(&self) -> EventV {
        match self {
            Event::Fetched(b) => EventV::Fetched(b@),
            Event::RecordRead(s) => EventV::RecordRead(s@),
            Event::Succeeded => EventV::Succeeded,
            Event::Failed => EventV::Failed,
        }
    }
}

impl View for Action {
    type V = Act;

    open spec fn view(&self) -> Act {
        match self {
            Action::FetchMetadata => Act::FetchMetadata,
            Action::ReadRecord => Act::ReadRecord,
            Action::RemoveInstall => Act::RemoveInstall,
            Action::Download { url, archive } => Act::Download { url: url@, archive: archive@ },
            Action::CreateInstallDir => Act::CreateInstallDir,
            Action::Extract { archive } => Act::Extract { archive: archive@ },
            Action::DeleteArchive => Act::DeleteArchive,
            Action::WriteRecord(t) => Act::WriteRecord(t@),
            Action::Done(p) => Act::Done(p@),
            Action::Fail(e) => Act::Fail(*e),
        }
    }
}

impl View for Phase {
    type V = Stage;

    open spec fn view(&self) -> Stage {
        match self {
            Phase::AwaitMetadata => Stage::AwaitMetadata,
            Phase::AwaitRecord(t) => Stage::AwaitRecord(t@),
            Phase::AwaitRemove(t) => Stage::AwaitRemove(t@),
            Phase::AwaitDownload(t) => Stage::AwaitDownload(t@),
            Phase::AwaitCreateDir(t) => Stage::AwaitCreateDir(t@),
            Phase::AwaitExtract(t) => Stage::AwaitExtract(t@),
            Phase::AwaitCleanup(t, e) => Stage::AwaitCleanup(t@, *e),
            Phase::AwaitWrite(t) => Stage::AwaitWrite(t@),
            Phase::Finished => Stage::Finished,
        }
    }
}

pub open spec fn release_download_base() -> Seq<char> {
    "https://github.com/OmniSharp/omnisharp-roslyn/releases/download/"@
}

/// The release asset's address: built from the tag and the archive name.
pub open spec fn asset_url(tag: Seq<char>, p: PlatformTag) -> Seq<char> {
    release_download_base() + tag + "/"@ + archive_name(p)
}

/// One step of provisioning: from the stage and the last action's outcome
/// to the next stage and action.
pub open spec fn next(p: PlatformTag, s: Stage, e: EventV) -> (Stage, Act) {
    match s {
        Stage::AwaitMetadata => match e {
            EventV::Fetched(b) => match release_tag_of(b) {
                Some(Some(t)) => (Stage::AwaitRecord(t), Act::ReadRecord),
                Some(None) => (Stage::Finished, Act::Fail(ProvisionError::Metadata)),
                None => (Stage::Finished, Act::Fail(ProvisionError::Network)),
            },
            _ => (Stage::Finished, Act::Fail(ProvisionError::Network)),
        },
        Stage::AwaitRecord(t) => match e {
            EventV::RecordRead(r) => if r == t {
                (Stage::Finished, Act::Done(binary_path(p.os)))
            } else {
                (Stage::AwaitRemove(t), Act::RemoveInstall)
            },
            _ => (Stage::Finished, Act::Fail(ProvisionError::Filesystem)),
        },
        Stage::AwaitRemove(t) => (
            Stage::AwaitDownload(t),
            Act::Download { url: asset_url(t, p), archive: archive_name(p) },
        ),
        Stage::AwaitDownload(t) => match e {
            EventV::Succeeded => (Stage::AwaitCreateDir(t), Act::CreateInstallDir),
            _ => (Stage::AwaitCleanup(t, Some(ProvisionError::Network)), Act::DeleteArchive),
        },
        Stage::AwaitCreateDir(t) => match e {
            EventV::Succeeded => (Stage::AwaitExtract(t), Act::Extract { archive: archive_name(p) }),
            _ => (Stage::AwaitCleanup(t, Some(ProvisionError::Filesystem)), Act::DeleteArchive),
        },
        Stage::AwaitExtract(t) => match e {
            EventV::Succeeded => (Stage::AwaitCleanup(t, None), Act::DeleteArchive),
            _ => (Stage::AwaitCleanup(t, Some(ProvisionError::Archive)), Act::DeleteArchive),
        },
        Stage::AwaitCleanup(t, err) => match err {
            Some(x) => (Stage::Finished, Act::Fail(x)),
            None => (Stage::AwaitWrite(t), Act::WriteRecord(t)),
        },
        Stage::AwaitWrite(t) => match e {
            EventV::Succeeded => (Stage::Finished, Act::Done(binary_path(p.os))),
            _ => (Stage::Finished, Act::Fail(ProvisionError::Filesystem)),
        },
        Stage::Finished => (Stage::Finished, Act::Fail(ProvisionError::Filesystem)),
    }
}

/// A finished run names the managed binary for its platform: the install
/// directory joined with the OS's binary file name.
pub proof fn lemma_done_is_platform_binary(p: PlatformTag, s: Stage, e: EventV)
    ensures
        next(p, s, e).1 matches Act::Done(path) ==> path == binary_path(p.os),
{
}

/// Metadata is fetched once per run: no step asks for it again.
pub proof fn lemma_no_second_fetch(p: PlatformTag, s: Stage, e: EventV)
    ensures
        !(next(p, s, e).1 is FetchMetadata),
{
}

/// The actions that a run from stage `s` takes on the outcomes `evs`.
pub open spec fn run(p: PlatformTag, s: Stage, evs: Seq<EventV>) -> Seq<Act>
    decreases evs.len(),
{
    if evs.len() == 0 {
        Seq::empty()
    } else {
        let (s2, a) = next(p, s, evs[0]);
        seq![a] + run(p, s2, evs.drop_first())
    }
}

/// Where the installed tag differs from the fetched one and every step
/// succeeds, the old install is removed, the archive is downloaded,
/// extracted and deleted, the fetched tag is written last, and the binary
/// path is returned. A second run that then fetches the same tag reads the
/// record and finishes: no download, extraction or record write.
pub proof fn lemma_update_then_steady(
    p: PlatformTag,
    body: Seq<u8>,
    installed: Seq<char>,
    removed: EventV,
    deleted: EventV,
)
    requires
        release_tag_of(body) matches Some(Some(t)) && installed != t,
    ensures
        ({
            let t = release_tag_of(body).unwrap().unwrap();
            run(
                p,
                Stage::AwaitMetadata,
                seq![
                    EventV::Fetched(body),
                    EventV::RecordRead(installed),
                    removed,
                    EventV::Succeeded,
                    EventV::Succeeded,
                    EventV::Succeeded,
                    deleted,
                    EventV::Succeeded,
                ],
            ) == seq![
                Act::ReadRecord,
                Act::RemoveInstall,
                Act::Download { url: asset_url(t, p), archive: archive_name(p) },
                Act::CreateInstallDir,
                Act::Extract { archive: archive_name(p) },
                Act::DeleteArchive,
                Act::WriteRecord(t),
                Act::Done(binary_path(p.os)),
            ] && run(
                p,
                Stage::AwaitMetadata,
                seq![EventV::Fetched(body), EventV::RecordRead(t)],
            ) == seq![Act::ReadRecord, Act::Done(binary_path(p.os))]
        }),
{
    reveal_with_fuel(run, 9);
    let t = release_tag_of(body).unwrap().unwrap();
    let evs = seq![
        EventV::Fetched(body),
        EventV::RecordRead(installed),
        removed,
        EventV::Succeeded,
        EventV::Succeeded,
        EventV::Succeeded,
        deleted,
        EventV::Succeeded,
    ];
    assert(evs.drop_first() =~= evs.subrange(1, 8));
    assert(evs.subrange(1, 8).drop_first() =~= evs.subrange(2, 8));
    assert(evs.subrange(2, 8).drop_first() =~= evs.subrange(3, 8));
    assert(evs.subrange(3, 8).drop_first() =~= evs.subrange(4, 8));
    assert(evs.subrange(4, 8).drop_first() =~= evs.subrange(5, 8));
    assert(evs.subrange(5, 8).drop_first() =~= evs.subrange(6, 8));
    assert(evs.subrange(6, 8).drop_first() =~= evs.subrange(7, 8));
    assert(evs.subrange(7, 8).drop_first() =~= Seq::<EventV>::empty());
    let short = seq![EventV::Fetched(body), EventV::RecordRead(t)];
    assert(short.drop_first() =~= seq![EventV::RecordRead(t)]);
    assert(seq![EventV::RecordRead(t)].drop_first() =~= Seq::<EventV>::empty());
    assert(run(p, Stage::AwaitMetadata, short) =~= seq![Act::ReadRecord, Act::Done(binary_path(p.os))]);
    assert(run(p, Stage::AwaitMetadata, evs) =~= seq![
        Act::ReadRecord,
        Act::RemoveInstall,
        Act::Download { url: asset_url(t, p), archive: archive_name(p) },
        Act::CreateInstallDir,
        Act::Extract { archive: archive_name(p) },
        Act::DeleteArchive,
        Act::WriteRecord(t),
        Act::Done(binary_path(p.os)),
    ]);
}

/// Keeps the installed server binary in step with the latest release. Its
/// first action is always `FetchMetadata`; each outcome is then handed to
/// `advance`, which returns the next action until `Done` or `Fail`.
pub struct Provisioner {
    pub platform: PlatformTag,
    pub phase: Phase,
}

fn download_url(tag: &String, p: PlatformTag) -> (r: String)
    ensures
        r@ == asset_url(tag@, p),
{
    let mut r = "https://github.com/OmniSharp/omnisharp-roslyn/releases/download/".to_owned();
    r.append(tag.as_str());
    r.append("/");
    let name = archive_file_name(p);
    r.append(name.as_str());
    r
}

impl Provisioner {
    pub fn new(platform: PlatformTag) -> (r: Provisioner)
        ensures
            r.platform == platform,
            r.phase@ == Stage::AwaitMetadata,
    {
        Provisioner { platform, phase: Phase::AwaitMetadata }
    }

    pub fn first_action(&self) -> (r: Action)
        ensures
            r@ == Act::FetchMetadata,
    {
        Action::FetchMetadata
    }

    pub fn is_finished(&self) -> (r: bool)
        ensures
            r == (self.phase@ is Finished),
    {
        match self.phase {
            Phase::Finished => true,
            _ => false,
        }
    }

    /// Takes the outcome of the last action and returns the next one.
    pub fn advance(&mut self, e: Event) -> (r: Action)
        requires
            !(old(self).phase@ is Finished),
        ensures
            final(self).platform == old(self).platform,
            (final(self).phase@, r@) == next(old(self).platform, old(self).phase@, e@),
    {
        let p = self.platform;
        let mut phase = Phase::Finished;
        std::mem::swap(&mut phase, &mut self.phase);
        let (ph, act) = match phase {
            Phase::AwaitMetadata => match e {
                Event::Fetched(b) => match parse_release_tag(b.as_slice()) {
                    Some(Some(t)) => (Phase::AwaitRecord(t), Action::ReadRecord),
                    Some(None) => (Phase::Finished, Action::Fail(ProvisionError::Metadata)),
                    None => (Phase::Finished, Action::Fail(ProvisionError::Network)),
                },
                _ => (Phase::Finished, Action::Fail(ProvisionError::Network)),
            },
            Phase::AwaitRecord(t) => match e {
                Event::RecordRead(r) => if r == t {
                    (Phase::Finished, Action::Done(binary_relative_path(p.os)))
                } else {
                    (Phase::AwaitRemove(t), Action::RemoveInstall)
                },
                _ => (Phase::Finished, Action::Fail(ProvisionError::Filesystem)),
            },
            Phase::AwaitRemove(t) => {
                let url = download_url(&t, p);
                (Phase::AwaitDownload(t), Action::Download { url, archive: archive_file_name(p) })
            },
            Phase::AwaitDownload(t) => match e {
                Event::Succeeded => (Phase::AwaitCreateDir(t), Action::CreateInstallDir),
                _ => (Phase::AwaitCleanup(t, Some(ProvisionError::Network)), Action::DeleteArchive),
            },
            Phase::AwaitCreateDir(t) => match e {
                Event::Succeeded => (
                    Phase::AwaitExtract(t),
                    Action::Extract { archive: archive_file_name(p) },
                ),
                _ => (
                    Phase::AwaitCleanup(t, Some(ProvisionError::Filesystem)),
                    Action::DeleteArchive,
                ),
            },
            Phase::AwaitExtract(t) => match e {
                Event::Succeeded => (Phase::AwaitCleanup(t, None), Action::DeleteArchive),
                _ => (Phase::AwaitCleanup(t, Some(ProvisionError::Archive)), Action::DeleteArchive),
            },
            Phase::AwaitCleanup(t, err) => match err {
                Some(x) => (Phase::Finished, Action::Fail(x)),
                None => {
                    let w = t.clone();
                    (Phase::AwaitWrite(t), Action::WriteRecord(w))
                },
            },
            Phase::AwaitWrite(_) => match e {
                Event::Succeeded => (Phase::Finished, Action::Done(binary_relative_path(p.os))),
                _ => (Phase::Finished, Action::Fail(ProvisionError::Filesystem)),
            },
            Phase::Finished => (Phase::Finished, Action::Fail(ProvisionError::Filesystem)),
        };
        self.phase = ph;
        act
    }
}

} // verus!
