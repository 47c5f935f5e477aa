//! The decisions of the remote-plugin cleanup command of the app-server test
//! client: the account-mutation confirmation, how a `plugin/read` answer is
//! checked, the polling for an installed state, and how the restoration
//! outcome is classified. The client drives the requests and the clock.

use vstd::prelude::*;
use vstd::string::StringExecFns;

use crate::text::texts;

verus! {

/// The marketplace name sent with `plugin/read` for remote plugins.
pub const REMOTE_MARKETPLACE_HINT: &'static str = "openai-curated-remote";

/// How long to wait for a remote plugin to reach a state, in milliseconds.
pub const STATE_TIMEOUT_MS: u64 = 15000;

/// The pause between two polls of the plugin state, in milliseconds.
pub const POLL_INTERVAL_MS: u64 = 100;

/// The refusal of a cleanup that was not confirmed.
pub const CONFIRMATION_REQUIRED_MESSAGE: &'static str =
    "this command installs and uninstalls a plugin on the active account; rerun with --confirm-account-mutation";

/// Whether the user confirmed that the command may change the active account.
#[derive(Clone, Copy, PartialEq, Eq, Structural, Debug)]
pub enum AccountMutationConfirmation {
    Confirmed,
    Missing,
}

impl AccountMutationConfirmation {
    /// The confirmation given by the `--confirm-account-mutation` flag.
    pub fn from_flag(confirm_account_mutation: bool) -> (c: Self)
        ensures
            confirm_account_mutation <==> c == AccountMutationConfirmation::Confirmed,
    {
        if confirm_account_mutation {
            AccountMutationConfirmation::Confirmed
        } else {
            AccountMutationConfirmation::Missing
        }
    }
}

/// Refuses to go on without the user's confirmation, with
/// `CONFIRMATION_REQUIRED_MESSAGE`.
pub fn require_confirmation(confirmation: AccountMutationConfirmation) -> (r: Result<(), String>)
    ensures
        match r {
            Ok(()) => confirmation == AccountMutationConfirmation::Confirmed,
            Err(m) => confirmation == AccountMutationConfirmation::Missing && m@
                == CONFIRMATION_REQUIRED_MESSAGE@,
        },
{
    match confirmation {
        AccountMutationConfirmation::Missing => Err(CONFIRMATION_REQUIRED_MESSAGE.to_owned()),
        AccountMutationConfirmation::Confirmed => Ok(()),
    }
}

/// The config overrides of the cleanup client: the given ones, then analytics
/// off and plugins on.
pub fn cleanup_overrides(config_overrides: Vec<String>) -> (r: Vec<String>)
    ensures
        texts(r@) == texts(config_overrides@) + seq![
            "analytics.enabled=false"@,
            "features.plugins=true"@,
        ],
{
    proof {
        reveal_strlit("analytics.enabled=false");
        reveal_strlit("features.plugins=true");
    }
    let mut overrides = config_overrides;
    let ghost before = overrides@;
    overrides.push("analytics.enabled=false".to_owned());
    overrides.push("features.plugins=true".to_owned());
    proof {
        assert(texts(overrides@) =~= texts(before) + seq![
            "analytics.enabled=false"@,
            "features.plugins=true"@,
        ]);
    }
    overrides
}

/// The error of a `plugin/read` answer without a remote id.
pub open spec fn missing_remote_id_message(requested: Seq<char>) -> Seq<char> {
    "plugin/read returned no remote id for `"@ + requested + "`"@
}

/// The error of a `plugin/read` answer for another remote id.
pub open spec fn mismatched_remote_id_message(actual: Seq<char>, requested: Seq<char>) -> Seq<
    char,
> {
    "plugin/read returned remote id `"@ + actual + "` for requested id `"@ + requested + "`"@
}

/// Checks the summary of a `plugin/read` answer for `requested`: it must
/// carry that remote id; then it tells whether the plugin is installed.
pub fn check_plugin_read(requested: &str, returned_remote_id: Option<String>, installed: bool) -> (r:
    Result<bool, String>)
    ensures
        match returned_remote_id {
            None => r matches Err(m) && m@ == missing_remote_id_message(requested@),
            Some(actual) => if actual@ == requested@ {
                r == Ok::<bool, String>(installed)
            } else {
                r matches Err(m) && m@ == mismatched_remote_id_message(actual@, requested@)
            },
        },
{
    proof {
        reveal_strlit("plugin/read returned no remote id for `");
        reveal_strlit("`");
        reveal_strlit("plugin/read returned remote id `");
        reveal_strlit("` for requested id `");
    }
    match returned_remote_id {
        None => {
            let mut m = "plugin/read returned no remote id for `".to_owned();
            m.append(requested);
            m.append("`");
            Err(m)
        },
        Some(actual) => {
            if crate::text::str_eq(actual.as_str(), requested) {
                Ok(installed)
            } else {
                let mut m = "plugin/read returned remote id `".to_owned();
                m.append(actual.as_str());
                m.append("` for requested id `");
                m.append(requested);
                m.append("`");
                Err(m)
            }
        },
    }
}

/// What to do after one poll of the plugin state.
pub enum WaitStep<E> {
    /// The plugin reached the expected state.
    Reached(bool),
    /// The poll failed after the deadline: give up with its error.
    Failed(E),
    /// The deadline passed without reaching the state: give up with this message.
    TimedOut(String),
    /// Sleep for the poll interval and poll again.
    PollAgain,
}

/// The word for an installed state.
pub open spec fn state_word(installed: bool) -> Seq<char> {
    if installed {
        "installed"@
    } else {
        "uninstalled"@
    }
}

/// The error of a wait that timed out.
pub open spec fn timeout_message(remote_plugin_id: Seq<char>, expected_installed: bool) -> Seq<
    char,
> {
    "timed out waiting for remote plugin `"@ + remote_plugin_id + "` to become "@ + state_word(
        expected_installed,
    )
}

/// One step of waiting for the plugin to become installed or uninstalled:
/// `read` is the answer of the poll and `expired` whether the deadline has
/// passed since.
pub fn wait_for_installed_state_step<E>(
    read: Result<bool, E>,
    expected_installed: bool,
    expired: bool,
    remote_plugin_id: &str,
) -> (step: WaitStep<E>)
    ensures
        match read {
            Ok(installed) if installed == expected_installed => step == WaitStep::<E>::Reached(
                installed,
            ),
            Err(e) if expired => step == WaitStep::<E>::Failed(e),
            _ => if expired {
                step matches WaitStep::TimedOut(m) && m@ == timeout_message(
                    remote_plugin_id@,
                    expected_installed,
                )
            } else {
                step is PollAgain
            },
        },
{
    match read {
        Ok(installed) => {
            if installed == expected_installed {
                return WaitStep::Reached(installed);
            }
        },
        Err(e) => {
            if expired {
                return WaitStep::Failed(e);
            }
        },
    }
    if expired {
        proof {
            reveal_strlit("timed out waiting for remote plugin `");
            reveal_strlit("` to become ");
            reveal_strlit("installed");
            reveal_strlit("uninstalled");
        }
        let mut m = "timed out waiting for remote plugin `".to_owned();
        m.append(remote_plugin_id);
        m.append("` to become ");
        if expected_installed {
            m.append("installed");
        } else {
            m.append("uninstalled");
        }
        WaitStep::TimedOut(m)
    } else {
        WaitStep::PollAgain
    }
}

/// Why the plugin may still be installed after the cleanup.
pub enum DirtyCause<E> {
    /// The uninstall succeeded but the uninstalled state was never observed.
    StateUnverified(E),
    /// The uninstall failed, and so did observing the uninstalled state.
    UninstallAndState(E, E),
}

/// How far the cleanup restored the uninstalled state.
pub enum RestorationStatus<E> {
    /// The plugin is uninstalled.
    Clean,
    /// The backend shows it uninstalled, but the local cleanup reported an error.
    LocalCleanupFailure(E),
    /// The plugin may still be installed.
    Dirty(DirtyCause<E>),
    /// Whether it is installed could not be read.
    Unknown(E),
}

/// What the cleanup has learned so far.
pub enum RestorationEvent<E> {
    /// The answer of the first `plugin/read`: whether the plugin is installed.
    Read(Result<bool, E>),
    /// The outcome of the uninstall and of waiting for the uninstalled state.
    UninstallSettled { uninstall: Result<(), E>, wait: Result<bool, E> },
}

/// What the cleanup does next.
pub enum RestorationAction<E> {
    /// Uninstall the plugin, then wait for the uninstalled state.
    UninstallAndWait,
    /// Stop with this status.
    Finish(RestorationStatus<E>),
}

/// Restores the uninstalled state of a remote plugin, one decision at a time:
/// an installed plugin is uninstalled and awaited; the outcome is classified
/// from the uninstall and the wait.
pub fn restore_uninstalled_state<E>(event: RestorationEvent<E>) -> (action: RestorationAction<E>)
    ensures
        match event {
            RestorationEvent::Read(Err(e)) => action == RestorationAction::<E>::Finish(
                RestorationStatus::Unknown(e),
            ),
            RestorationEvent::Read(Ok(installed)) => if installed {
                action is UninstallAndWait
            } else {
                action == RestorationAction::<E>::Finish(RestorationStatus::Clean)
            },
            RestorationEvent::UninstallSettled { uninstall, wait } => match wait {
                Ok(_) => match uninstall {
                    Ok(()) => action == RestorationAction::<E>::Finish(RestorationStatus::Clean),
                    Err(u) => action == RestorationAction::<E>::Finish(
                        RestorationStatus::LocalCleanupFailure(u),
                    ),
                },
                Err(s) => match uninstall {
                    Ok(()) => action == RestorationAction::<E>::Finish(
                        RestorationStatus::Dirty(DirtyCause::StateUnverified(s)),
                    ),
                    Err(u) => action == RestorationAction::<E>::Finish(
                        RestorationStatus::Dirty(DirtyCause::UninstallAndState(u, s)),
                    ),
                },
            },
        },
{
    match event {
        RestorationEvent::Read(Err(e)) => RestorationAction::Finish(RestorationStatus::Unknown(e)),
        RestorationEvent::Read(Ok(installed)) => {
            if installed {
                RestorationAction::UninstallAndWait
            } else {
                RestorationAction::Finish(RestorationStatus::Clean)
            }
        },
        RestorationEvent::UninstallSettled { uninstall, wait } => match wait {
            Ok(_) => match uninstall {
                Ok(()) => RestorationAction::Finish(RestorationStatus::Clean),
                Err(u) => RestorationAction::Finish(RestorationStatus::LocalCleanupFailure(u)),
            },
            Err(s) => match uninstall {
                Ok(()) => RestorationAction::Finish(
                    RestorationStatus::Dirty(DirtyCause::StateUnverified(s)),
                ),
                Err(u) => RestorationAction::Finish(
                    RestorationStatus::Dirty(DirtyCause::UninstallAndState(u, s)),
                ),
            },
        },
    }
}

} // verus!
