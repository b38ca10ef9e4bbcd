//! The install command and the order of its stages.

use crate::checksum::{check_sha, checksum_verdict, hex_encoding, sha512_digest, DIGEST_WIDTH};
use crate::cli::InstallTypeCmd;
use crate::download::join_transfers;
use crate::error::{AssetRole, InstallError};
use crate::github::{
    get_asset_ids, is_selection, no_match, release_version_url, selection_needs_archive,
    selection_view, tag_url, AssetPair, Release, ReleaseView,
};
use vstd::prelude::*;

verus! {

/// The request to install one release of a family.
#[derive(Debug, PartialEq, Eq)]
pub struct Install {
    pub install_version: String,
    pub flatpak: bool,
    pub install_type: InstallTypeCmd,
}

/// The stage that an install is at.
#[derive(Clone, Copy, Debug, PartialEq, Eq, Structural)]
pub enum InstallState {
    /// Asking the catalog for the release.
    Resolving,
    /// Picking the archive and its checksum among the release's assets.
    Selecting,
    /// Fetching both assets.
    Downloading,
    /// Comparing the archive's digest with the checksum.
    Verifying,
    /// Decoding and unpacking the archive.
    Extracting,
    /// Removing the downloaded files after a good install.
    CleaningUp,
    /// The install is complete.
    Done,
    /// The install was given up.
    Failed { reason: InstallError },
}

/// How a stage of an install ended.
#[derive(Clone, Copy, Debug, PartialEq, Eq)]
pub enum InstallEvent {
    /// The catalog answered, or could not be asked.
    Resolved(Result<(), InstallError>),
    /// Both assets were picked, or one is missing.
    Selected(Result<(), InstallError>),
    /// Both transfers are over; `outcome` is what they amount to together.
    Downloaded(Result<(), InstallError>),
    /// The digest was compared: whether it matched, or why it could not be
    /// compared.
    Verified(Result<bool, InstallError>),
    /// The archive was unpacked, or could not be.
    Extracted(Result<(), InstallError>),
    /// The removal of the downloaded files was attempted; whether it
    /// succeeded does not count.
    CleanedUp,
}

/// What is to be done next for an install.
#[derive(Clone, Copy, Debug, PartialEq, Eq, Structural)]
pub enum InstallAction {
    /// Ask the catalog for the release.
    Resolve,
    /// Pick the two assets.
    Select,
    /// Fetch both assets, side by side.
    Download,
    /// Hash the archive and compare.
    Verify,
    /// Decode and unpack the archive.
    Extract,
    /// Remove the downloaded files, as far as they exist.
    Cleanup,
    /// Nothing: the install is over.
    Stop,
}

impl InstallState {
    /// What an install at this stage waits to have done.
    pub open spec fn awaited(self) -> InstallAction {
        match self {
            InstallState::Resolving => InstallAction::Resolve,
            InstallState::Selecting => InstallAction::Select,
            InstallState::Downloading => InstallAction::Download,
            InstallState::Verifying => InstallAction::Verify,
            InstallState::Extracting => InstallAction::Extract,
            InstallState::CleaningUp => InstallAction::Cleanup,
            InstallState::Done => InstallAction::Stop,
            InstallState::Failed { .. } => InstallAction::Stop,
        }
    }

    /// Whether downloaded files may exist at this stage.
    pub open spec fn holds_downloads(self) -> bool {
        self is Downloading || self is Verifying || self is Extracting || self is CleaningUp
    }

    /// Whether `event` reports the end of this stage.
    pub open spec fn expects(self, event: InstallEvent) -> bool {
        match self {
            InstallState::Resolving => event is Resolved,
            InstallState::Selecting => event is Selected,
            InstallState::Downloading => event is Downloaded,
            InstallState::Verifying => event is Verified,
            InstallState::Extracting => event is Extracted,
            InstallState::CleaningUp => event is CleanedUp,
            InstallState::Done => false,
            InstallState::Failed { .. } => false,
        }
    }

    /// Why `event` ends an install, if it does: the failure that it reports,
    /// or the mismatch of the digest.
    pub open spec fn failure(event: InstallEvent) -> Option<InstallError> {
        match event {
            InstallEvent::Resolved(Err(reason)) => Some(reason),
            InstallEvent::Selected(Err(reason)) => Some(reason),
            InstallEvent::Downloaded(Err(reason)) => Some(reason),
            InstallEvent::Verified(Err(reason)) => Some(reason),
            InstallEvent::Verified(Ok(false)) => Some(InstallError::HashMismatch),
            InstallEvent::Extracted(Err(reason)) => Some(reason),
            _ => None,
        }
    }

    /// The stage that follows this one when it ends well.
    pub open spec fn successor(self) -> InstallState {
        match self {
            InstallState::Resolving => InstallState::Selecting,
            InstallState::Selecting => InstallState::Downloading,
            InstallState::Downloading => InstallState::Verifying,
            InstallState::Verifying => InstallState::Extracting,
            InstallState::Extracting => InstallState::CleaningUp,
            InstallState::CleaningUp => InstallState::Done,
            InstallState::Done => InstallState::Done,
            InstallState::Failed { reason } => InstallState::Failed { reason },
        }
    }

    /// The stage after `event`, and what is to be done then.
    ///
    /// A stage that ends well is followed by the next one. A stage that fails
    /// ends the install with the failure's reason, and the downloaded files
    /// are removed if any may exist. An event that does not report the end of
    /// the stage changes nothing.
    pub open spec fn next(self, event: InstallEvent) -> (InstallState, InstallAction) {
        if !self.expects(event) {
            (self, self.awaited())
        } else {
            match Self::failure(event) {
                Some(reason) => (
                    InstallState::Failed { reason },
                    if self.holds_downloads() {
                        InstallAction::Cleanup
                    } else {
                        InstallAction::Stop
                    },
                ),
                None => (self.successor(), self.successor().awaited()),
            }
        }
    }

    /// The stage reached from this one after the first `n` of `events`.
    pub open spec fn after(self, events: Seq<InstallEvent>, n: nat) -> InstallState
        decreases n,
    {
        if n == 0 {
            self
        } else {
            self.after(events, (n - 1) as nat).next(events[n - 1]).0
        }
    }

    /// The stage reached from this one after all of `events`, in order.
    pub open spec fn run(self, events: Seq<InstallEvent>) -> InstallState {
        self.after(events, events.len())
    }

    /// The first stage of every install.
    pub fn start() -> (begin: (InstallState, InstallAction))
        ensures
            begin == (InstallState::Resolving, InstallAction::Resolve),
    {
        (InstallState::Resolving, InstallAction::Resolve)
    }

    /// Whether the install is over, well or not.
    pub fn is_over(&self) -> (over: bool)
        ensures
            over == (*self is Done || *self is Failed),
    {
        match self {
            InstallState::Done => true,
            InstallState::Failed { .. } => true,
            _ => false,
        }
    }

    /// How the install ended, once it is over.
    pub fn result(&self) -> (result: Option<Result<(), InstallError>>)
        ensures
            result == match *self {
                InstallState::Done => Some(Ok::<(), InstallError>(())),
                InstallState::Failed { reason } => Some(Err(reason)),
                _ => None,
            },
    {
        match self {
            InstallState::Done => Some(Ok(())),
            InstallState::Failed { reason } => Some(Err(*reason)),
            _ => None,
        }
    }

    /// Takes in how a stage ended, and says what stage the install is at then
    /// and what is to be done.
    pub fn step(self, event: InstallEvent) -> (next: (InstallState, InstallAction))
        ensures
            next == self.next(event),
    {
        let holds_downloads = match self {
            InstallState::Downloading => true,
            InstallState::Verifying => true,
            InstallState::Extracting => true,
            InstallState::CleaningUp => true,
            _ => false,
        };
        let on_failure = if holds_downloads {
            InstallAction::Cleanup
        } else {
            InstallAction::Stop
        };
        match (self, event) {
            (InstallState::Resolving, InstallEvent::Resolved(outcome)) => match outcome {
                Ok(_) => (InstallState::Selecting, InstallAction::Select),
                Err(reason) => (InstallState::Failed { reason }, on_failure),
            },
            (InstallState::Selecting, InstallEvent::Selected(outcome)) => match outcome {
                Ok(_) => (InstallState::Downloading, InstallAction::Download),
                Err(reason) => (InstallState::Failed { reason }, on_failure),
            },
            (InstallState::Downloading, InstallEvent::Downloaded(outcome)) => match outcome {
                Ok(_) => (InstallState::Verifying, InstallAction::Verify),
                Err(reason) => (InstallState::Failed { reason }, on_failure),
            },
            (InstallState::Verifying, InstallEvent::Verified(outcome)) => match outcome {
                Ok(true) => (InstallState::Extracting, InstallAction::Extract),
                Ok(false) => (
                    InstallState::Failed { reason: InstallError::HashMismatch },
                    on_failure,
                ),
                Err(reason) => (InstallState::Failed { reason }, on_failure),
            },
            (InstallState::Extracting, InstallEvent::Extracted(outcome)) => match outcome {
                Ok(_) => (InstallState::CleaningUp, InstallAction::Cleanup),
                Err(reason) => (InstallState::Failed { reason }, on_failure),
            },
            (InstallState::CleaningUp, InstallEvent::CleanedUp) => (
                InstallState::Done,
                InstallAction::Stop,
            ),
            (InstallState::Resolving, _) => (self, InstallAction::Resolve),
            (InstallState::Selecting, _) => (self, InstallAction::Select),
            (InstallState::Downloading, _) => (self, InstallAction::Download),
            (InstallState::Verifying, _) => (self, InstallAction::Verify),
            (InstallState::Extracting, _) => (self, InstallAction::Extract),
            (InstallState::CleaningUp, _) => (self, InstallAction::Cleanup),
            (InstallState::Done, _) => (self, InstallAction::Stop),
            (InstallState::Failed { .. }, _) => (self, InstallAction::Stop),
        }
    }
}

impl InstallEvent {
    /// The event that reports a selection: that it was made, or why not.
    pub open spec fn of_selection(outcome: Result<AssetPair, InstallError>) -> InstallEvent {
        match outcome {
            Ok(_) => InstallEvent::Selected(Ok(())),
            Err(reason) => InstallEvent::Selected(Err(reason)),
        }
    }

    /// The event that reports the two transfers: success where both
    /// succeeded, else the first failure, the archive's before the
    /// checksum's.
    pub open spec fn of_transfers(
        archive: Result<u64, InstallError>,
        checksum: Result<u64, InstallError>,
    ) -> InstallEvent {
        match (archive, checksum) {
            (Err(reason), _) => InstallEvent::Downloaded(Err(reason)),
            (Ok(_), Err(reason)) => InstallEvent::Downloaded(Err(reason)),
            (Ok(_), Ok(_)) => InstallEvent::Downloaded(Ok(())),
        }
    }

    /// Reports the end of the selecting stage.
    pub fn selected(outcome: &Result<AssetPair, InstallError>) -> (event: InstallEvent)
        ensures
            event == Self::of_selection(*outcome),
    {
        match outcome {
            Ok(_) => InstallEvent::Selected(Ok(())),
            Err(reason) => InstallEvent::Selected(Err(*reason)),
        }
    }

    /// Reports the end of the downloading stage, once both transfers are
    /// over.
    pub fn downloaded(
        archive: Result<u64, InstallError>,
        checksum: Result<u64, InstallError>,
    ) -> (event: InstallEvent)
        ensures
            event == Self::of_transfers(archive, checksum),
    {
        InstallEvent::Downloaded(join_transfers(archive, checksum))
    }

    /// Carries out the verifying stage on the archive's bytes and the
    /// checksum's text, and reports its end.
    pub fn verified(archive: &[u8], expected: &str) -> (event: InstallEvent)
        ensures
            event == InstallEvent::Verified(
                checksum_verdict(hex_encoding(sha512_digest(archive@)), expected@),
            ),
    {
        InstallEvent::Verified(check_sha(archive, expected))
    }
}

impl Default for Install {
    fn default() -> (install: Self)
        ensures
            install.install_version@ == Seq::<char>::empty(),
            !install.flatpak,
            install.install_type == InstallTypeCmd::Proton,
    {
        Install {
            install_version: String::new(),
            flatpak: false,
            install_type: InstallTypeCmd::Proton,
        }
    }
}

impl Install {
    /// The request to install the release tagged `install_version` of the
    /// family `install_type`, into the sandboxed runtime's place where
    /// `flatpak` is set.
    pub fn new(install_version: String, flatpak: bool, install_type: InstallTypeCmd) -> (install:
        Self)
        ensures
            install.install_version == install_version,
            install.flatpak == flatpak,
            install.install_type == install_type,
    {
        Self { install_version, flatpak, install_type }
    }

    /// The catalog address of the release to install.
    pub fn release_url(&self) -> (address: String)
        ensures
            address@ == tag_url(self.install_type.family().url(false), self.install_version@),
    {
        let listing = self.install_type.get_url(false);
        release_version_url(listing.as_str(), self.install_version.as_str())
    }

    /// The directory into which the release is unpacked, relative to the
    /// user's home.
    pub fn destination(&self) -> (path: &'static str)
        ensures
            path@ == self.install_type.family().compat_path(self.flatpak),
    {
        self.install_type.compat_directory(self.flatpak)
    }

    /// Picks the archive and the checksum of `release`, the archive by the
    /// ending of this install's family.
    pub fn select(&self, release: &Release) -> (outcome: Result<AssetPair, InstallError>)
        ensures
            is_selection(
                release@.assets,
                self.install_type.family().suffix(),
                selection_view(outcome),
            ),
    {
        get_asset_ids(release, self.install_type.install_type().archive_suffix())
    }
}

/// An install runs through its stages in one order: while no stage fails, six
/// reports in turn lead from the first stage to the end, and the last thing
/// done before the end is the removal of the downloaded files.
pub proof fn unfailing_install_completes(events: Seq<InstallEvent>)
    requires
        events.len() == 6,
        events[0] is Resolved,
        events[1] is Selected,
        events[2] is Downloaded,
        events[3] is Verified,
        events[4] is Extracted,
        events[5] is CleanedUp,
        forall|i: int| 0 <= i < 6 ==> InstallState::failure(#[trigger] events[i]) is None,
    ensures
        InstallState::Resolving.run(events) == InstallState::Done,
        InstallState::Resolving.after(events, 5) == InstallState::CleaningUp,
        InstallState::Resolving.after(events, 4).next(events[4]).1 == InstallAction::Cleanup,
{
    reveal_with_fuel(InstallState::after, 7);
}

/// An install that is over stays as it ended, however many reports follow: no
/// later report, and no failure to clean up, replaces the reason of a failure.
pub proof fn ended_install_stays(state: InstallState, events: Seq<InstallEvent>, n: nat)
    requires
        state is Done || state is Failed,
    ensures
        state.after(events, n) == state,
    decreases n,
{
    if n > 0 {
        ended_install_stays(state, events, (n - 1) as nat);
    }
}

/// A digest that differs from the checksum's leading digest ends the install
/// with `HashMismatch`: the downloaded files are removed, and nothing that is
/// reported later brings the install to extraction.
pub proof fn mismatch_is_fatal(archive: Seq<u8>, expected: Seq<char>, later: Seq<InstallEvent>)
    requires
        expected.len() >= DIGEST_WIDTH,
        expected.take(DIGEST_WIDTH as int) != hex_encoding(sha512_digest(archive)),
    ensures
        ({
            let verdict = checksum_verdict(hex_encoding(sha512_digest(archive)), expected);
            let after = InstallState::Verifying.next(InstallEvent::Verified(verdict));
            &&& after == (
                InstallState::Failed { reason: InstallError::HashMismatch },
                InstallAction::Cleanup,
            )
            &&& after.0.run(later) == after.0
        }),
{
    ended_install_stays(
        InstallState::Failed { reason: InstallError::HashMismatch },
        later,
        later.len(),
    );
}

/// A checksum text that begins with the archive's digest lets the install go
/// on to extraction.
pub proof fn match_leads_to_extraction(archive: Seq<u8>, expected: Seq<char>)
    requires
        expected.len() >= DIGEST_WIDTH,
        expected.take(DIGEST_WIDTH as int) == hex_encoding(sha512_digest(archive)),
    ensures
        InstallState::Verifying.next(
            InstallEvent::Verified(
                checksum_verdict(hex_encoding(sha512_digest(archive)), expected),
            ),
        ) == (InstallState::Extracting, InstallAction::Extract),
{
}

/// The archive is unpacked only after its digest matched: the extracting
/// stage is entered from the verifying stage alone, on a match, and
/// extraction is asked for in that stage alone.
pub proof fn extraction_needs_match(state: InstallState, event: InstallEvent)
    ensures
        state.next(event).0 is Extracting ==> state is Extracting || (state is Verifying && event
            == InstallEvent::Verified(Ok(true))),
        state.next(event).1 is Extract ==> state.next(event).0 is Extracting,
{
}

/// Whatever is reported, an install comes to extraction, to cleanup or to its
/// good end only past a matching digest: some earlier report, taken in the
/// verifying stage, said that the digest matched.
pub proof fn extraction_was_verified(events: Seq<InstallEvent>, n: nat)
    requires
        ({
            let reached = InstallState::Resolving.after(events, n);
            reached is Extracting || reached is CleaningUp || reached is Done
        }),
    ensures
        exists|k: nat|
            k < n && #[trigger] InstallState::Resolving.after(events, k) is Verifying
                && events[k as int] == InstallEvent::Verified(Ok(true)),
    decreases n,
{
    if n > 0 {
        let before = InstallState::Resolving.after(events, (n - 1) as nat);
        let event = events[n - 1];
        extraction_needs_match(before, event);
        done_only_after_cleanup(before, event);
        if before is Extracting || before is CleaningUp || before is Done {
            extraction_was_verified(events, (n - 1) as nat);
        } else {
            assert(InstallState::Resolving.after(events, (n - 1) as nat) is Verifying);
        }
    }
}

/// A release without an archive for the family ends the install before any
/// download: selection reports the missing archive, and the install stops
/// with nothing to remove.
pub proof fn missing_archive_stops_install(
    release: ReleaseView,
    archive_suffix: Seq<char>,
    outcome: Result<AssetPair, InstallError>,
)
    requires
        no_match(release.assets, archive_suffix),
        is_selection(release.assets, archive_suffix, selection_view(outcome)),
    ensures
        InstallState::Selecting.next(InstallEvent::of_selection(outcome)) == (
            InstallState::Failed {
                reason: InstallError::AssetMissing { role: AssetRole::Archive },
            },
            InstallAction::Stop,
        ),
{
    selection_needs_archive(release.assets, archive_suffix, selection_view(outcome));
}

/// Where either transfer fails, the install fails with the first failure and
/// the downloaded files are removed, those of a transfer that succeeded too.
pub proof fn failed_transfer_fails_install(
    archive: Result<u64, InstallError>,
    checksum: Result<u64, InstallError>,
)
    requires
        archive is Err || checksum is Err,
    ensures
        ({
            let after = InstallState::Downloading.next(InstallEvent::of_transfers(archive, checksum));
            &&& after.0 is Failed
            &&& after.1 == InstallAction::Cleanup
            &&& archive is Err ==> after.0 == (InstallState::Failed { reason: archive->Err_0 })
            &&& archive is Ok ==> after.0 == (InstallState::Failed { reason: checksum->Err_0 })
        }),
{
}

/// The end of an install is reached through cleanup alone, and cleanup after
/// a good extraction alone.
pub proof fn done_only_after_cleanup(state: InstallState, event: InstallEvent)
    ensures
        state.next(event).0 is Done ==> state is Done || (state is CleaningUp && event
            is CleanedUp),
        state.next(event).0 is CleaningUp ==> state is CleaningUp || (state is Extracting
            && event matches InstallEvent::Extracted(Ok(_))),
{
}

} // verus!
