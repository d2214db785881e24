//! The pure halves of the outbound host calls.
//!
//! Every privileged action is a synchronous round-trip: build a request
//! value, hand it to the host, interpret the response. Building and
//! interpreting are plain data transformations and are verified here; the
//! round-trip itself is the unverified shell's work. For the fire-and-forget
//! calls (send a message, react, schedule a job, reload, unload, instruct)
//! the host's success signal is discarded, as the protocol's users expect;
//! the two fallible calls (database query, plugin load) surface the host's
//! error as an explicit value.

use vstd::prelude::*;

use hank_types::database::{PreparedStatement, Results};
use hank_types::load_plugin_input::Wasm;
use hank_types::message::{Message, Reaction};
use hank_types::plugin::{Instruction, Metadata};
use hank_types::{
    DbQueryInput, DbQueryOutput, InstructPluginInput, LoadPluginInput, LoadPluginOutput,
    ReactInput, ReloadPluginInput, SendMessageInput, UnloadPluginInput,
};

verus! {

/// The request that sends `message` to the channel it names.
pub fn send_message_request(message: Message) -> (r: SendMessageInput)
    ensures
        r.message == Some(message),
{
    SendMessageInput { message: Some(message) }
}

/// A reply to `message`: the same message with its content replaced by
/// `response`, so it returns to the channel and author it came from.
pub fn respond_message(response: String, message: Message) -> (r: Message)
    ensures
        r.content == response,
        r.id == message.id,
        r.timestamp == message.timestamp,
        r.author == message.author,
        r.channel == message.channel,
{
    Message { content: response, ..message }
}

/// The request that reacts to a message with an emoji.
pub fn react_request(reaction: Reaction) -> (r: ReactInput)
    ensures
        r.reaction == Some(reaction),
{
    ReactInput { reaction: Some(reaction) }
}

/// The request that runs a prepared statement on the plugin's database.
pub fn db_query_request(statement: PreparedStatement) -> (r: DbQueryInput)
    ensures
        r.prepared_statement == Some(statement),
{
    DbQueryInput { prepared_statement: Some(statement) }
}

/// What a query response means: a host-reported error string is surfaced
/// exactly as the failure value and yields no rows; otherwise the rows,
/// empty when the host sent none.
pub fn db_query_result(output: DbQueryOutput) -> (r: Result<Results, String>)
    ensures
        (match output.error {
            Some(e) => r == Err::<Results, String>(e),
            None => match output.results {
                Some(results) => r == Ok::<Results, String>(results),
                None => r matches Ok(results) && results.rows@.len() == 0,
            },
        }),
{
    if let Some(error) = output.error {
        Err(error)
    } else {
        match output.results {
            Some(results) => Ok(results),
            None => Ok(Results { rows: Vec::new() }),
        }
    }
}

/// Whether `serde_json` decodes this text into a value: a function of the
/// text alone.
pub uninterp spec fn json_decodes(s: Seq<char>) -> bool;

/// Relies on `serde_json::from_str::<serde_json::Value>`: decoding succeeds
/// or fails depending on the text alone.
#[verifier::external_body]
fn parse_row(row: &String) -> (r: Option<serde_json::Value>)
    ensures
        r is Some <==> json_decodes(row@),
{
    serde_json::from_str(row).ok()
}

/// How a fetch can fail.
#[derive(Debug)]
pub enum DbFetchError {
    /// The host reported this error string for the query itself; it is
    /// surfaced exactly, and no rows come with it.
    Host(String),
    /// The row at this index is the first that does not decode as JSON.
    MalformedRow(usize),
}

/// The rows a query response carries, empty when the host sent none.
pub open spec fn response_rows(output: DbQueryOutput) -> Seq<String> {
    match output.results {
        Some(results) => results.rows@,
        None => Seq::empty(),
    }
}

/// What a fetch response means. Each row is decoded independently, in order;
/// the first row that fails to decode fails the whole batch, reported by
/// index — a malformed row is never silently dropped, nor the batch silently
/// replaced by an empty one. (Skipping bad rows instead would also be
/// defensible; failing the batch is this library's documented choice.)
pub fn db_fetch_values(output: DbQueryOutput) -> (r: Result<Vec<serde_json::Value>, DbFetchError>)
    ensures
        (match output.error {
            Some(e) => r == Err::<Vec<serde_json::Value>, DbFetchError>(DbFetchError::Host(e)),
            None => match r {
                Ok(values) => values@.len() == response_rows(output).len() && forall|i: int|
                    0 <= i < response_rows(output).len() ==> json_decodes(
                        response_rows(output)[i]@,
                    ),
                Err(DbFetchError::MalformedRow(i)) => i < response_rows(output).len()
                    && !json_decodes(response_rows(output)[i as int]@) && forall|j: int|
                    0 <= j < i ==> json_decodes(response_rows(output)[j]@),
                Err(DbFetchError::Host(_)) => false,
            },
        }),
{
    if let Some(error) = output.error {
        return Err(DbFetchError::Host(error));
    }
    let rows: Vec<String> = match output.results {
        Some(results) => results.rows,
        None => Vec::new(),
    };
    let ghost row_seq = rows@;
    let mut values: Vec<serde_json::Value> = Vec::new();
    let mut i: usize = 0;
    while i < rows.len()
        invariant
            output.error is None,
            rows@ == row_seq,
            row_seq == response_rows(output),
            0 <= i <= row_seq.len(),
            values@.len() == i,
            forall|j: int| 0 <= j < i ==> json_decodes(row_seq[j]@),
        decreases rows@.len() - i,
    {
        match parse_row(&rows[i]) {
            Some(value) => values.push(value),
            None => {
                return Err(DbFetchError::MalformedRow(i));
            },
        }
        i = i + 1;
    }
    Ok(values)
}

/// The request that schedules a reload of the named plugin.
pub fn reload_plugin_request(plugin: String) -> (r: ReloadPluginInput)
    ensures
        r.plugin == plugin,
{
    ReloadPluginInput { plugin }
}

/// The request that loads a plugin from a URL, a path, or raw bytes.
pub fn load_plugin_request(wasm: Wasm) -> (r: LoadPluginInput)
    ensures
        r.wasm == Some(wasm),
{
    LoadPluginInput { wasm: Some(wasm) }
}

/// Whether `serde_json` decodes this text into a plugin manifest: a function
/// of the text alone.
pub uninterp spec fn manifest_decodes(s: Seq<char>) -> bool;

/// Relies on `serde_json::from_str::<extism_manifest::Manifest>`: decoding
/// succeeds or fails depending on the text alone.
#[verifier::external_body]
fn parse_manifest(manifest: &String) -> (r: Option<extism_manifest::Manifest>)
    ensures
        r is Some <==> manifest_decodes(manifest@),
{
    serde_json::from_str(manifest).ok()
}

/// How interpreting a load response can fail. The protocol guarantees
/// neither happens on a successful load, so the shell treats both as fatal.
#[derive(Debug, PartialEq, Eq, Structural)]
pub enum LoadPluginError {
    /// The manifest text did not decode.
    BadManifest,
    /// The response carried no metadata.
    MissingMetadata,
}

/// What a load response means: the decoded manifest paired with the loaded
/// plugin's metadata. The manifest text is decoded first, so an undecodable
/// manifest is reported even when the metadata is also missing.
pub fn load_plugin_result(output: LoadPluginOutput) -> (r: Result<
    (extism_manifest::Manifest, Metadata),
    LoadPluginError,
>)
    ensures
        !manifest_decodes(output.manifest@) ==> r == Err::<
            (extism_manifest::Manifest, Metadata),
            LoadPluginError,
        >(LoadPluginError::BadManifest),
        manifest_decodes(output.manifest@) && output.metadata is None ==> r == Err::<
            (extism_manifest::Manifest, Metadata),
            LoadPluginError,
        >(LoadPluginError::MissingMetadata),
        manifest_decodes(output.manifest@) ==> (output.metadata matches Some(metadata) ==> (r
            matches Ok(p) && p.1 == metadata)),
{
    let manifest = match parse_manifest(&output.manifest) {
        Some(manifest) => manifest,
        None => {
            return Err(LoadPluginError::BadManifest);
        },
    };
    match output.metadata {
        Some(metadata) => Ok((manifest, metadata)),
        None => Err(LoadPluginError::MissingMetadata),
    }
}

/// The request that unloads the named plugin, optionally cleaning up its
/// stored data.
pub fn unload_plugin_request(plugin: String, cleanup: bool) -> (r: UnloadPluginInput)
    ensures
        r.plugin == plugin,
        r.cleanup == cleanup,
{
    UnloadPluginInput { plugin, cleanup }
}

/// The request that sends an instruction to another plugin.
pub fn instruct_plugin_request(instruction: Instruction) -> (r: InstructPluginInput)
    ensures
        r.instruction == Some(instruction),
{
    InstructPluginInput { instruction: Some(instruction) }
}

} // verus!
