//! Obtaining the server's TLS identity.
//!
//! The identity lives in a data directory. It is loaded from there when
//! valid material is present, and otherwise generated once and written
//! back so that later runs find it. Reading, generating and writing are
//! done by the caller; [`Provisioner`] decides which of them comes next.

use vstd::prelude::*;

verus! {

/// A certificate chain and the private key that belongs to it.
#[derive(Debug, PartialEq, Eq)]
pub struct TlsIdentity {
    pub certificate_chain: Vec<u8>,
    pub private_key: Vec<u8>,
}

/// The mathematical value of a [`TlsIdentity`].
pub struct TlsIdentityView {
    pub certificate_chain: Seq<u8>,
    pub private_key: Seq<u8>,
}

impl View for TlsIdentity {
    type V = TlsIdentityView;

    open spec fn view(&self) -> TlsIdentityView {
        TlsIdentityView {
            certificate_chain: self.certificate_chain@,
            private_key: self.private_key@,
        }
    }
}

impl Clone for TlsIdentity {
    fn clone(&self) -> (copy: TlsIdentity)
        ensures
            copy@ == self@,
    {
        TlsIdentity {
            certificate_chain: self.certificate_chain.clone(),
            private_key: self.private_key.clone(),
        }
    }
}

/// Why no identity could be obtained.
#[derive(Clone, Copy, Debug, PartialEq, Eq, Hash, Structural)]
pub enum ProvisioningError {
    /// The data directory cannot be used.
    DirectoryUnusable,
    /// No new certificate and key could be generated.
    GenerationFailed,
    /// Generated material could not be written to the data directory.
    PersistFailed,
}

impl ProvisioningError {
    /// The error in words.
    pub open spec fn spec_message(&self) -> Seq<char> {
        match self {
            ProvisioningError::DirectoryUnusable => "the data directory cannot be used"@,
            ProvisioningError::GenerationFailed => "no certificate could be generated"@,
            ProvisioningError::PersistFailed => "the certificate could not be written"@,
        }
    }

    /// The error in words.
    pub fn message(&self) -> (text: &'static str)
        ensures
            text@ == self.spec_message(),
    {
        match self {
            ProvisioningError::DirectoryUnusable => "the data directory cannot be used",
            ProvisioningError::GenerationFailed => "no certificate could be generated",
            ProvisioningError::PersistFailed => "the certificate could not be written",
        }
    }
}

/// What the caller reports back to a [`Provisioner`].
#[derive(Debug, PartialEq, Eq)]
pub enum ProvisionEvent {
    /// The data directory cannot be read.
    DirectoryUnusable,
    /// The data directory holds no certificate and key.
    Missing,
    /// The data directory holds this material; `valid` says whether it
    /// can serve as a TLS identity.
    Found { identity: TlsIdentity, valid: bool },
    /// This material was newly generated.
    Generated { identity: TlsIdentity },
    /// Generating new material failed.
    GenerationFailed,
    /// The material handed out for writing is now in the data directory.
    Persisted,
    /// The material handed out for writing could not be written.
    PersistFailed,
}

/// The mathematical value of a [`ProvisionEvent`].
pub enum ProvisionEventView {
    DirectoryUnusable,
    Missing,
    Found { identity: TlsIdentityView, valid: bool },
    Generated { identity: TlsIdentityView },
    GenerationFailed,
    Persisted,
    PersistFailed,
}

impl View for ProvisionEvent {
    type V = ProvisionEventView;

    open spec fn view(&self) -> ProvisionEventView {
        match self {
            ProvisionEvent::DirectoryUnusable => ProvisionEventView::DirectoryUnusable,
            ProvisionEvent::Missing => ProvisionEventView::Missing,
            ProvisionEvent::Found { identity, valid } => ProvisionEventView::Found {
                identity: identity@,
                valid: *valid,
            },
            ProvisionEvent::Generated { identity } => ProvisionEventView::Generated {
                identity: identity@,
            },
            ProvisionEvent::GenerationFailed => ProvisionEventView::GenerationFailed,
            ProvisionEvent::Persisted => ProvisionEventView::Persisted,
            ProvisionEvent::PersistFailed => ProvisionEventView::PersistFailed,
        }
    }
}

/// What a [`Provisioner`] asks its caller to do next.
#[derive(Debug, PartialEq, Eq)]
pub enum ProvisionAction {
    /// Read the certificate and key from `data_dir`.
    Load { data_dir: String },
    /// Generate a new certificate and key.
    Generate,
    /// Write `identity` to `data_dir`.
    Persist { data_dir: String, identity: TlsIdentity },
    /// Provisioning succeeded with `identity`.
    Finish { identity: TlsIdentity },
    /// Provisioning failed; startup must be aborted.
    Fail { error: ProvisioningError },
    /// The event did not apply; there is nothing to do.
    Nothing,
}

/// The mathematical value of a [`ProvisionAction`].
pub enum ProvisionActionView {
    Load { data_dir: Seq<char> },
    Generate,
    Persist { data_dir: Seq<char>, identity: TlsIdentityView },
    Finish { identity: TlsIdentityView },
    Fail { error: ProvisioningError },
    Nothing,
}

impl View for ProvisionAction {
    type V = ProvisionActionView;

    open spec fn view(&self) -> ProvisionActionView {
        match self {
            ProvisionAction::Load { data_dir } => ProvisionActionView::Load { data_dir: data_dir@ },
            ProvisionAction::Generate => ProvisionActionView::Generate,
            ProvisionAction::Persist { data_dir, identity } => ProvisionActionView::Persist {
                data_dir: data_dir@,
                identity: identity@,
            },
            ProvisionAction::Finish { identity } => ProvisionActionView::Finish {
                identity: identity@,
            },
            ProvisionAction::Fail { error } => ProvisionActionView::Fail { error: *error },
            ProvisionAction::Nothing => ProvisionActionView::Nothing,
        }
    }
}

/// How far provisioning has come.
#[derive(Debug, PartialEq, Eq)]
pub enum Stage {
    /// Waiting for the contents of the data directory.
    Loading,
    /// Waiting for newly generated material.
    Generating,
    /// Waiting for `identity` to be written.
    Persisting { identity: TlsIdentity },
    /// Done: `identity` is the server's identity.
    Ready { identity: TlsIdentity },
    /// Done: no identity could be obtained.
    Failed { error: ProvisioningError },
}

/// The mathematical value of a [`Stage`].
pub enum StageView {
    Loading,
    Generating,
    Persisting { identity: TlsIdentityView },
    Ready { identity: TlsIdentityView },
    Failed { error: ProvisioningError },
}

impl View for Stage {
    type V = StageView;

    open spec fn view(&self) -> StageView {
        match self {
            Stage::Loading => StageView::Loading,
            Stage::Generating => StageView::Generating,
            Stage::Persisting { identity } => StageView::Persisting { identity: identity@ },
            Stage::Ready { identity } => StageView::Ready { identity: identity@ },
            Stage::Failed { error } => StageView::Failed { error: *error },
        }
    }
}

/// Decides, step by step, how the identity for one data directory is
/// obtained.
#[derive(Debug, PartialEq, Eq)]
pub struct Provisioner {
    pub data_dir: String,
    pub stage: Stage,
}

/// The mathematical value of a [`Provisioner`].
pub struct ProvisionerView {
    pub data_dir: Seq<char>,
    pub stage: StageView,
}

impl View for Provisioner {
    type V = ProvisionerView;

    open spec fn view(&self) -> ProvisionerView {
        ProvisionerView { data_dir: self.data_dir@, stage: self.stage@ }
    }
}

impl ProvisionerView {
    /// A provisioner for `data_dir` that has just asked for the
    /// directory to be read, and that request.
    pub open spec fn init(data_dir: Seq<char>) -> (ProvisionerView, ProvisionActionView) {
        (
            ProvisionerView { data_dir, stage: StageView::Loading },
            ProvisionActionView::Load { data_dir },
        )
    }

    /// Whether provisioning has ended, in success or in failure.
    pub open spec fn is_done(self) -> bool {
        self.stage is Ready || self.stage is Failed
    }

    /// The provisioner after `event`, and what it asks for next.
    ///
    /// Valid stored material is used as it is. Missing or invalid
    /// material is replaced: generated, then written, then used. Each
    /// failure ends provisioning. An event that does not answer the
    /// request that is outstanding changes nothing.
    pub open spec fn step(self, event: ProvisionEventView) -> (
        ProvisionerView,
        ProvisionActionView,
    ) {
        match (self.stage, event) {
            (StageView::Loading, ProvisionEventView::Found { identity, valid: true }) => (
                ProvisionerView { stage: StageView::Ready { identity }, ..self },
                ProvisionActionView::Finish { identity },
            ),
            (StageView::Loading, ProvisionEventView::Found { identity, valid: false }) => (
                ProvisionerView { stage: StageView::Generating, ..self },
                ProvisionActionView::Generate,
            ),
            (StageView::Loading, ProvisionEventView::Missing) => (
                ProvisionerView { stage: StageView::Generating, ..self },
                ProvisionActionView::Generate,
            ),
            (StageView::Loading, ProvisionEventView::DirectoryUnusable) => (
                ProvisionerView {
                    stage: StageView::Failed { error: ProvisioningError::DirectoryUnusable },
                    ..self
                },
                ProvisionActionView::Fail { error: ProvisioningError::DirectoryUnusable },
            ),
            (StageView::Generating, ProvisionEventView::Generated { identity }) => (
                ProvisionerView { stage: StageView::Persisting { identity }, ..self },
                ProvisionActionView::Persist { data_dir: self.data_dir, identity },
            ),
            (StageView::Generating, ProvisionEventView::GenerationFailed) => (
                ProvisionerView {
                    stage: StageView::Failed { error: ProvisioningError::GenerationFailed },
                    ..self
                },
                ProvisionActionView::Fail { error: ProvisioningError::GenerationFailed },
            ),
            (StageView::Persisting { identity }, ProvisionEventView::Persisted) => (
                ProvisionerView { stage: StageView::Ready { identity }, ..self },
                ProvisionActionView::Finish { identity },
            ),
            (StageView::Persisting { identity }, ProvisionEventView::PersistFailed) => (
                ProvisionerView {
                    stage: StageView::Failed { error: ProvisioningError::PersistFailed },
                    ..self
                },
                ProvisionActionView::Fail { error: ProvisioningError::PersistFailed },
            ),
            _ => (self, ProvisionActionView::Nothing),
        }
    }
}

impl Provisioner {
    /// Starts provisioning for `data_dir`: the first thing to do is to
    /// read what the directory holds.
    pub fn init(data_dir: String) -> (start: (Provisioner, ProvisionAction))
        ensures
            (start.0@, start.1@) == ProvisionerView::init(data_dir@),
    {
        let request = ProvisionAction::Load { data_dir: data_dir.clone() };
        (Provisioner { data_dir, stage: Stage::Loading }, request)
    }

    /// Takes in what the caller reports and returns the provisioner's
    /// next state with the next thing to do.
    pub fn step(self, event: ProvisionEvent) -> (next: (Provisioner, ProvisionAction))
        ensures
            (next.0@, next.1@) == self@.step(event@),
    {
        let Provisioner { data_dir, stage } = self;
        match (stage, event) {
            (Stage::Loading, ProvisionEvent::Found { identity, valid }) => {
                if valid {
                    let chosen = identity.clone();
                    (
                        Provisioner { data_dir, stage: Stage::Ready { identity } },
                        ProvisionAction::Finish { identity: chosen },
                    )
                } else {
                    (Provisioner { data_dir, stage: Stage::Generating }, ProvisionAction::Generate)
                }
            },
            (Stage::Loading, ProvisionEvent::Missing) => {
                (Provisioner { data_dir, stage: Stage::Generating }, ProvisionAction::Generate)
            },
            (Stage::Loading, ProvisionEvent::DirectoryUnusable) => {
                let error = ProvisioningError::DirectoryUnusable;
                (
                    Provisioner { data_dir, stage: Stage::Failed { error } },
                    ProvisionAction::Fail { error },
                )
            },
            (Stage::Generating, ProvisionEvent::Generated { identity }) => {
                let target = data_dir.clone();
                let fresh = identity.clone();
                (
                    Provisioner { data_dir, stage: Stage::Persisting { identity } },
                    ProvisionAction::Persist { data_dir: target, identity: fresh },
                )
            },
            (Stage::Generating, ProvisionEvent::GenerationFailed) => {
                let error = ProvisioningError::GenerationFailed;
                (
                    Provisioner { data_dir, stage: Stage::Failed { error } },
                    ProvisionAction::Fail { error },
                )
            },
            (Stage::Persisting { identity }, ProvisionEvent::Persisted) => {
                let chosen = identity.clone();
                (
                    Provisioner { data_dir, stage: Stage::Ready { identity } },
                    ProvisionAction::Finish { identity: chosen },
                )
            },
            (Stage::Persisting { identity }, ProvisionEvent::PersistFailed) => {
                let error = ProvisioningError::PersistFailed;
                (
                    Provisioner { data_dir, stage: Stage::Failed { error } },
                    ProvisionAction::Fail { error },
                )
            },
            (stage, _) => (Provisioner { data_dir, stage }, ProvisionAction::Nothing),
        }
    }

    /// Whether provisioning has ended, in success or in failure.
    pub fn is_done(&self) -> (done: bool)
        ensures
            done == self@.is_done(),
    {
        match &self.stage {
            Stage::Ready { .. } => true,
            Stage::Failed { .. } => true,
            _ => false,
        }
    }
}

/// A data directory as provisioning sees it: whether it can be read and
/// written, and the material in it, if any, with its validity.
pub struct DirectoryModel {
    pub readable: bool,
    pub writable: bool,
    pub stored: Option<(TlsIdentityView, bool)>,
}

/// One complete provisioning run: where the provisioner ended, what the
/// directory holds afterwards, and every request made, in order.
pub struct ProvisionRun {
    pub provisioner: ProvisionerView,
    pub directory: DirectoryModel,
    pub actions: Seq<ProvisionActionView>,
}

/// What carrying out `action` does to `directory` and reports back.
/// `fresh` is what generating yields, `None` if generating fails.
/// Written material is valid when read again. `Finish`, `Fail` and
/// `Nothing` report nothing: the run is over.
pub open spec fn perform(
    directory: DirectoryModel,
    fresh: Option<TlsIdentityView>,
    action: ProvisionActionView,
) -> (DirectoryModel, Option<ProvisionEventView>) {
    match action {
        ProvisionActionView::Load { .. } => if !directory.readable {
            (directory, Some(ProvisionEventView::DirectoryUnusable))
        } else {
            match directory.stored {
                Some((identity, valid)) => (
                    directory,
                    Some(ProvisionEventView::Found { identity, valid }),
                ),
                None => (directory, Some(ProvisionEventView::Missing)),
            }
        },
        ProvisionActionView::Generate => match fresh {
            Some(identity) => (directory, Some(ProvisionEventView::Generated { identity })),
            None => (directory, Some(ProvisionEventView::GenerationFailed)),
        },
        ProvisionActionView::Persist { identity, .. } => if directory.writable {
            (
                DirectoryModel { stored: Some((identity, true)), ..directory },
                Some(ProvisionEventView::Persisted),
            )
        } else {
            (directory, Some(ProvisionEventView::PersistFailed))
        },
        _ => (directory, None),
    }
}

/// Carries out `action` and every request that follows from it, for at
/// most `fuel` further requests.
pub open spec fn provision_from(
    provisioner: ProvisionerView,
    action: ProvisionActionView,
    directory: DirectoryModel,
    fresh: Option<TlsIdentityView>,
    fuel: nat,
) -> ProvisionRun
    decreases fuel,
{
    match perform(directory, fresh, action) {
        (after, Some(event)) if fuel > 0 => {
            let (next, request) = provisioner.step(event);
            let rest = provision_from(next, request, after, fresh, (fuel - 1) as nat);
            ProvisionRun { actions: seq![action] + rest.actions, ..rest }
        },
        _ => ProvisionRun { provisioner, directory, actions: seq![action] },
    }
}

/// A provisioning run for `data_dir` from its first request to its end.
/// No run makes more than four requests.
pub open spec fn provision(
    data_dir: Seq<char>,
    directory: DirectoryModel,
    fresh: Option<TlsIdentityView>,
) -> ProvisionRun {
    let (provisioner, request) = ProvisionerView::init(data_dir);
    provision_from(provisioner, request, directory, fresh, 3)
}

/// Every provisioning run ends, and ends in exactly one way:
///
/// - an unreadable directory fails the run at once, with nothing
///   generated or written;
/// - valid stored material is used as it is, with nothing generated or
///   written;
/// - otherwise new material is generated, written and used, and the run
///   fails where generating or writing does.
pub proof fn lemma_provision_outcome(
    data_dir: Seq<char>,
    directory: DirectoryModel,
    fresh: Option<TlsIdentityView>,
)
    ensures
        ({
            let run = provision(data_dir, directory, fresh);
            let load = ProvisionActionView::Load { data_dir };
            let unusable = ProvisioningError::DirectoryUnusable;
            let no_material = ProvisioningError::GenerationFailed;
            let not_written = ProvisioningError::PersistFailed;
            &&& run.provisioner.is_done()
            &&& run.provisioner.data_dir == data_dir
            &&& !directory.readable ==> {
                &&& run.provisioner.stage == StageView::Failed { error: unusable }
                &&& run.directory == directory
                &&& run.actions == seq![load, ProvisionActionView::Fail { error: unusable }]
            }
            &&& directory.readable ==> match directory.stored {
                Some((identity, true)) => {
                    &&& run.provisioner.stage == StageView::Ready { identity }
                    &&& run.directory == directory
                    &&& run.actions == seq![load, ProvisionActionView::Finish { identity }]
                },
                _ => match fresh {
                    None => {
                        &&& run.provisioner.stage == StageView::Failed { error: no_material }
                        &&& run.directory == directory
                        &&& run.actions == seq![
                            load,
                            ProvisionActionView::Generate,
                            ProvisionActionView::Fail { error: no_material },
                        ]
                    },
                    Some(identity) => if directory.writable {
                        &&& run.provisioner.stage == StageView::Ready { identity }
                        &&& run.directory == DirectoryModel {
                            stored: Some((identity, true)),
                            ..directory
                        }
                        &&& run.actions == seq![
                            load,
                            ProvisionActionView::Generate,
                            ProvisionActionView::Persist { data_dir, identity },
                            ProvisionActionView::Finish { identity },
                        ]
                    } else {
                        &&& run.provisioner.stage == StageView::Failed { error: not_written }
                        &&& run.directory == directory
                        &&& run.actions == seq![
                            load,
                            ProvisionActionView::Generate,
                            ProvisionActionView::Persist { data_dir, identity },
                            ProvisionActionView::Fail { error: not_written },
                        ]
                    },
                },
            }
        }),
{
    reveal_with_fuel(provision_from, 5);
}

/// Provisioning is idempotent. After a run that succeeded, a second run
/// on the same directory yields the same identity, generates nothing,
/// writes nothing and leaves the directory as it is, whatever
/// generating would have yielded the second time.
pub proof fn lemma_provision_idempotent(
    data_dir: Seq<char>,
    directory: DirectoryModel,
    fresh: Option<TlsIdentityView>,
    fresh_again: Option<TlsIdentityView>,
)
    requires
        provision(data_dir, directory, fresh).provisioner.stage is Ready,
    ensures
        ({
            let first = provision(data_dir, directory, fresh);
            let second = provision(data_dir, first.directory, fresh_again);
            let identity = first.provisioner.stage->Ready_identity;
            &&& second.provisioner.stage == StageView::Ready { identity }
            &&& second.directory == first.directory
            &&& second.actions == seq![
                ProvisionActionView::Load { data_dir },
                ProvisionActionView::Finish { identity },
            ]
        }),
{
    lemma_provision_outcome(data_dir, directory, fresh);
    let first = provision(data_dir, directory, fresh);
    lemma_provision_outcome(data_dir, first.directory, fresh_again);
}

} // verus!
