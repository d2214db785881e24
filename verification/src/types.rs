//! Declarations of the host protocol types from `hank_types`.
//!
//! The payload types the bridge merely carries (metadata, users, channels,
//! command contexts, ...) are declared opaque. The envelope types whose fields
//! the bridge itself builds or reads are declared with their fields visible,
//! exactly as `hank_types` defines them, so that contracts can speak of their
//! contents.

use vstd::prelude::*;

verus! {

// ---- Opaque payload types: carried through, never inspected. ----

/// Relies on `hank_types::plugin::Metadata`: the plugin's immutable
/// descriptor, carried through and cloned, never inspected.
#[verifier::external_type_specification]
#[verifier::external_body]
pub struct ExMetadata(hank_types::plugin::Metadata);

/// Relies on `hank_types::Timestamp` (a re-export of `prost_types::Timestamp`).
#[verifier::external_type_specification]
#[verifier::external_body]
pub struct ExTimestamp(hank_types::Timestamp);

/// Relies on `hank_types::user::User`.
#[verifier::external_type_specification]
#[verifier::external_body]
pub struct ExUser(hank_types::user::User);

/// Relies on `hank_types::channel::Channel`.
#[verifier::external_type_specification]
#[verifier::external_body]
pub struct ExChannel(hank_types::channel::Channel);

/// Relies on `hank_types::plugin::CommandContext`: the parsed command a chat
/// command delivery carries, passed through to the handler.
#[verifier::external_type_specification]
#[verifier::external_body]
pub struct ExCommandContext(hank_types::plugin::CommandContext);

/// Relies on `hank_types::message::Reaction`: an emoji reaction payload,
/// carried through.
#[verifier::external_type_specification]
#[verifier::external_body]
pub struct ExReaction(hank_types::message::Reaction);

/// Relies on `hank_types::database::PreparedStatement`: a SQL statement with
/// its placeholder values, carried through.
#[verifier::external_type_specification]
#[verifier::external_body]
pub struct ExPreparedStatement(hank_types::database::PreparedStatement);

/// Relies on `hank_types::plugin::Instruction`: an instruction for another
/// plugin, carried through.
#[verifier::external_type_specification]
#[verifier::external_body]
pub struct ExInstruction(hank_types::plugin::Instruction);

/// Relies on `hank_types::access_check::AccessCheck`: one access test,
/// carried into a chain unread.
#[verifier::external_type_specification]
#[verifier::external_body]
pub struct ExAccessCheck(hank_types::access_check::AccessCheck);

/// Relies on `serde_json::Value`: a decoded database row, handed back to the
/// caller uninspected.
#[verifier::external_type_specification]
#[verifier::external_body]
pub struct ExJsonValue(serde_json::Value);

/// Relies on `extism_manifest::Manifest`: the manifest of a loaded plugin,
/// handed back to the caller uninspected.
#[verifier::external_type_specification]
#[verifier::external_body]
pub struct ExManifest(extism_manifest::Manifest);

// ---- Transparent envelope types: fields as `hank_types` declares them. ----

/// Relies on `hank_types::message::Message`: a chat message; only `content`
/// is ever rewritten by the bridge, the other fields pass through.
#[verifier::external_type_specification]
pub struct ExMessage(hank_types::message::Message);

/// Relies on `hank_types::cron::CronJob`: a cron schedule plus the identifier
/// the host will echo back.
#[verifier::external_type_specification]
pub struct ExCronJob(hank_types::cron::CronJob);

/// Relies on `hank_types::cron::OneShotJob`: a delay in seconds plus the
/// identifier the host will echo back.
#[verifier::external_type_specification]
pub struct ExOneShotJob(hank_types::cron::OneShotJob);

/// Relies on `hank_types::scheduled_job_input::ScheduledJob`: the echo the
/// host delivers, either a cron job or a one-shot job.
#[verifier::external_type_specification]
pub struct ExScheduledJob(hank_types::scheduled_job_input::ScheduledJob);

/// Relies on `hank_types::ScheduledJobInput`.
#[verifier::external_type_specification]
pub struct ExScheduledJobInput(hank_types::ScheduledJobInput);

/// Relies on `hank_types::CronInput`: the request registering a cron job.
#[verifier::external_type_specification]
pub struct ExCronInput(hank_types::CronInput);

/// Relies on `hank_types::OneShotInput`: the request registering a one-shot
/// job.
#[verifier::external_type_specification]
pub struct ExOneShotInput(hank_types::OneShotInput);

/// Relies on `hank_types::SendMessageInput`.
#[verifier::external_type_specification]
pub struct ExSendMessageInput(hank_types::SendMessageInput);

/// Relies on `hank_types::ReactInput`.
#[verifier::external_type_specification]
pub struct ExReactInput(hank_types::ReactInput);

/// Relies on `hank_types::DbQueryInput`.
#[verifier::external_type_specification]
pub struct ExDbQueryInput(hank_types::DbQueryInput);

/// Relies on `hank_types::DbQueryOutput`: the rows and the host-reported
/// error of a database query.
#[verifier::external_type_specification]
pub struct ExDbQueryOutput(hank_types::DbQueryOutput);

/// Relies on `hank_types::database::Results`: the rows a query returned,
/// each a JSON string.
#[verifier::external_type_specification]
pub struct ExResults(hank_types::database::Results);

/// Relies on `hank_types::ReloadPluginInput`.
#[verifier::external_type_specification]
pub struct ExReloadPluginInput(hank_types::ReloadPluginInput);

/// Relies on `hank_types::load_plugin_input::Wasm`: a module to load, by
/// URL, path, or raw bytes.
#[verifier::external_type_specification]
pub struct ExWasm(hank_types::load_plugin_input::Wasm);

/// Relies on `hank_types::LoadPluginInput`.
#[verifier::external_type_specification]
pub struct ExLoadPluginInput(hank_types::LoadPluginInput);

/// Relies on `hank_types::LoadPluginOutput`: the manifest text and metadata
/// of a loaded plugin.
#[verifier::external_type_specification]
pub struct ExLoadPluginOutput(hank_types::LoadPluginOutput);

/// Relies on `hank_types::UnloadPluginInput`.
#[verifier::external_type_specification]
pub struct ExUnloadPluginInput(hank_types::UnloadPluginInput);

/// Relies on `hank_types::InstructPluginInput`.
#[verifier::external_type_specification]
pub struct ExInstructPluginInput(hank_types::InstructPluginInput);

/// Relies on `hank_types::access_check::AccessCheckChain`: a list of checks
/// combined under one operator.
#[verifier::external_type_specification]
pub struct ExAccessCheckChain(hank_types::access_check::AccessCheckChain);

/// Relies on `hank_types::ChatMessageInput`.
#[verifier::external_type_specification]
pub struct ExChatMessageInput(hank_types::ChatMessageInput);

/// Relies on `hank_types::ChatMessageOutput`: the empty acknowledgement.
#[verifier::external_type_specification]
pub struct ExChatMessageOutput(hank_types::ChatMessageOutput);

/// Relies on `hank_types::ChatCommandInput`.
#[verifier::external_type_specification]
pub struct ExChatCommandInput(hank_types::ChatCommandInput);

/// Relies on `hank_types::ChatCommandOutput`: the empty acknowledgement.
#[verifier::external_type_specification]
pub struct ExChatCommandOutput(hank_types::ChatCommandOutput);

/// Relies on `hank_types::GetMetadataOutput`.
#[verifier::external_type_specification]
pub struct ExGetMetadataOutput(hank_types::GetMetadataOutput);

/// Relies on `hank_types::InstallOutput`: the empty acknowledgement.
#[verifier::external_type_specification]
pub struct ExInstallOutput(hank_types::InstallOutput);

/// Relies on `hank_types::InitializeOutput`: the empty acknowledgement.
#[verifier::external_type_specification]
pub struct ExInitializeOutput(hank_types::InitializeOutput);

/// Relies on `hank_types::ScheduledJobOutput`: the empty acknowledgement.
#[verifier::external_type_specification]
pub struct ExScheduledJobOutput(hank_types::ScheduledJobOutput);

// ---- Trusted function contracts. ----

/// Relies on `Metadata::clone` (derived): clones every field, so the result
/// equals the original.
pub assume_specification[ <hank_types::plugin::Metadata as Clone>::clone ](
    m: &hank_types::plugin::Metadata,
) -> (r: hank_types::plugin::Metadata)
    ensures
        r == *m,
;

} // verus!
