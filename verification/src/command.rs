//! The commands, and what each needs of the local state.

use vstd::prelude::*;

verus! {

/// The commands.
#[derive(Clone, Copy, Debug, PartialEq, Eq, Structural)]
pub enum CommandKind {
    Listen,
    Runtime,
    RuntimeContactAdd,
    RuntimeQueueMessage,
    RuntimeOutboxStatus,
    RuntimeIpcPing,
    RuntimeIpcQueueMessage,
    RuntimeIpcOutboxStatus,
    Connect,
    Sync,
    SeedHistory,
    RatchetBundle,
    RatchetPrekeyPool,
    HistoryRewrapExport,
    HistoryRewrapImport,
    HistoryRewrapSas,
    HistoryRewrapFetch,
    HistoryRecoveryResume,
    HistoryRecoveryLinkInspect,
    HistoryRecoveryLinkQrRender,
    HistoryRecoveryLinkAccept,
    HistoryRecoveryLinkDiscover,
    HistoryRecoveryPlanApprove,
    HistoryRecoveryPlanRun,
    HistoryRecoveryPlanWatch,
    HistoryRecoveryPlanCancel,
    PlatformContext,
    HistoryRewrapReconcile,
    History,
    Identity,
    AccountCreate,
    AccountShow,
    AccountSnapshot,
    AccountDeviceList,
    ConversationCreate,
    ConversationMemberAdd,
    ConversationMembershipInstall,
    DeviceEnroll,
    DeviceAuthorityUpdate,
    DeviceAuthorize,
    DeviceRevoke,
    StateVaultMigrate,
    StateVaultVerify,
    StateVaultShadowRead,
    StateVaultRecover,
    StateVaultKeyExport,
    StateVaultKeyImport,
    StateVaultRestore,
}

impl CommandKind {
    /// The command works on a state directory.
    pub open spec fn has_state(self) -> bool {
        match self {
            CommandKind::AccountCreate => false,
            CommandKind::HistoryRewrapSas => false,
            CommandKind::HistoryRecoveryLinkInspect => false,
            CommandKind::HistoryRecoveryLinkQrRender => false,
            CommandKind::AccountShow => false,
            CommandKind::AccountSnapshot => false,
            CommandKind::AccountDeviceList => false,
            CommandKind::ConversationCreate => false,
            CommandKind::ConversationMemberAdd => false,
            CommandKind::DeviceRevoke => false,
            CommandKind::RuntimeIpcPing => false,
            CommandKind::RuntimeIpcQueueMessage => false,
            CommandKind::RuntimeIpcOutboxStatus => false,
            CommandKind::PlatformContext => false,
            _ => true,
        }
    }

    /// The command manages the encrypted vault itself.
    pub open spec fn manages_vault(self) -> bool {
        match self {
            CommandKind::StateVaultMigrate => true,
            CommandKind::StateVaultVerify => true,
            CommandKind::StateVaultShadowRead => true,
            CommandKind::StateVaultRecover => true,
            CommandKind::StateVaultKeyExport => true,
            CommandKind::StateVaultKeyImport => true,
            CommandKind::StateVaultRestore => true,
            _ => false,
        }
    }

    /// The command runs for long and locks the state for each of its operations.
    pub open spec fn locks_by_itself(self) -> bool {
        match self {
            CommandKind::Runtime => true,
            CommandKind::HistoryRecoveryPlanRun => true,
            CommandKind::HistoryRecoveryPlanWatch => true,
            _ => false,
        }
    }

    /// What the command changes is mirrored to the vault when it ends.
    pub open spec fn mirrors(self) -> bool {
        self.has_state() && !self.manages_vault() && !self.locks_by_itself()
    }

    /// The state is locked for as long as the command runs.
    pub open spec fn holds_lock(self) -> bool {
        self.has_state() && !self.locks_by_itself()
    }

    /// Whether the command works on a state directory.
    pub fn state_directory(self) -> (r: bool)
        ensures
            r == self.has_state(),
    {
        match self {
            CommandKind::AccountCreate => false,
            CommandKind::HistoryRewrapSas => false,
            CommandKind::HistoryRecoveryLinkInspect => false,
            CommandKind::HistoryRecoveryLinkQrRender => false,
            CommandKind::AccountShow => false,
            CommandKind::AccountSnapshot => false,
            CommandKind::AccountDeviceList => false,
            CommandKind::ConversationCreate => false,
            CommandKind::ConversationMemberAdd => false,
            CommandKind::DeviceRevoke => false,
            CommandKind::RuntimeIpcPing => false,
            CommandKind::RuntimeIpcQueueMessage => false,
            CommandKind::RuntimeIpcOutboxStatus => false,
            CommandKind::PlatformContext => false,
            _ => true,
        }
    }

    /// Whether what the command changes is mirrored to the vault when it ends.
    pub fn uses_state_vault_dual_write(self) -> (r: bool)
        ensures
            r == self.mirrors(),
    {
        self.state_directory() && match self {
            CommandKind::StateVaultMigrate => false,
            CommandKind::StateVaultVerify => false,
            CommandKind::StateVaultShadowRead => false,
            CommandKind::StateVaultRecover => false,
            CommandKind::StateVaultKeyExport => false,
            CommandKind::StateVaultKeyImport => false,
            CommandKind::StateVaultRestore => false,
            CommandKind::Runtime => false,
            CommandKind::HistoryRecoveryPlanRun => false,
            CommandKind::HistoryRecoveryPlanWatch => false,
            _ => true,
        }
    }

    /// Whether the state is locked for as long as the command runs.
    pub fn uses_outer_state_lock(self) -> (r: bool)
        ensures
            r == self.holds_lock(),
    {
        self.state_directory() && match self {
            CommandKind::Runtime => false,
            CommandKind::HistoryRecoveryPlanRun => false,
            CommandKind::HistoryRecoveryPlanWatch => false,
            _ => true,
        }
    }
}

/// A command whose changes are mirrored holds the state lock while it runs, a command that
/// holds the lock works on a state directory, and every command that manages the vault holds
/// the lock.
pub proof fn mirrored_command_holds_lock(command: CommandKind)
    ensures
        command.mirrors() ==> command.holds_lock(),
        command.holds_lock() ==> command.has_state(),
        command.manages_vault() ==> command.holds_lock(),
{
}

/// The commands that work on no device state are those of an account's own directory, of text that
/// is only shown, of the runtime's control channel and of the platform.
pub proof fn commands_without_state(command: CommandKind)
    ensures
        !command.has_state() <==> {
            ||| command is AccountCreate
            ||| command is HistoryRewrapSas
            ||| command is HistoryRecoveryLinkInspect
            ||| command is HistoryRecoveryLinkQrRender
            ||| command is AccountShow
            ||| command is AccountSnapshot
            ||| command is AccountDeviceList
            ||| command is ConversationCreate
            ||| command is ConversationMemberAdd
            ||| command is DeviceRevoke
            ||| command is RuntimeIpcPing
            ||| command is RuntimeIpcQueueMessage
            ||| command is RuntimeIpcOutboxStatus
            ||| command is PlatformContext
        },
{
}

/// A command holds the lock of its state for all of its time exactly where it has a state and is
/// none of the long-running ones, which lock for each step. It is mirrored to the vault exactly
/// where it holds the lock and does not manage the vault itself.
pub proof fn lock_and_mirror_follow_the_command(command: CommandKind)
    ensures
        ({
            let long_running = {
                ||| command is Runtime
                ||| command is HistoryRecoveryPlanRun
                ||| command is HistoryRecoveryPlanWatch
            };
            let vault = {
                ||| command is StateVaultMigrate
                ||| command is StateVaultVerify
                ||| command is StateVaultShadowRead
                ||| command is StateVaultRecover
                ||| command is StateVaultKeyExport
                ||| command is StateVaultKeyImport
                ||| command is StateVaultRestore
            };
            &&& command.locks_by_itself() <==> long_running
            &&& command.manages_vault() <==> vault
            &&& command.holds_lock() <==> command.has_state() && !long_running
            &&& command.mirrors() <==> command.holds_lock() && !vault
            &&& long_running || vault ==> command.has_state()
        }),
{
}

} // verus!
