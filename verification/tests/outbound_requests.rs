use hank_pdk::outbound::{
    instruct_plugin_request, load_plugin_request, load_plugin_result, react_request,
    reload_plugin_request, respond_message, send_message_request, unload_plugin_request,
    LoadPluginError,
};
use hank_types::load_plugin_input::Wasm;
use hank_types::message::{Message, Reaction};
use hank_types::plugin::{Instruction, Metadata};
use hank_types::LoadPluginOutput;

#[test]
fn send_message_request_wraps_the_message() {
    let message = Message {
        content: "hello".to_string(),
        ..Message::default()
    };
    let request = send_message_request(message.clone());
    assert_eq!(request.message, Some(message));
}

#[test]
fn respond_replaces_content_and_keeps_the_rest() {
    let original = Message {
        id: Some("m-1".to_string()),
        content: "ping".to_string(),
        ..Message::default()
    };
    let reply = respond_message("pong".to_string(), original.clone());
    assert_eq!(reply.content, "pong");
    assert_eq!(reply.id, original.id);
    assert_eq!(reply.channel, original.channel);
    assert_eq!(reply.author, original.author);
}

#[test]
fn react_request_wraps_the_reaction() {
    let reaction = Reaction {
        message: Some(Message::default()),
        emoji: "🎲".to_string(),
    };
    let request = react_request(reaction.clone());
    assert_eq!(request.reaction, Some(reaction));
}

#[test]
fn reload_unload_and_instruct_requests_carry_their_fields() {
    assert_eq!(reload_plugin_request("dice".to_string()).plugin, "dice");
    let unload = unload_plugin_request("dice".to_string(), true);
    assert_eq!(unload.plugin, "dice");
    assert!(unload.cleanup);
    let instruction = Instruction::default();
    let request = instruct_plugin_request(instruction.clone());
    assert_eq!(request.instruction, Some(instruction));
}

#[test]
fn load_plugin_request_wraps_the_module() {
    let wasm = Wasm::Url("https://plugins.example/dice.wasm".to_string());
    let request = load_plugin_request(wasm.clone());
    assert_eq!(request.wasm, Some(wasm));
}

#[test]
fn load_plugin_result_returns_manifest_and_metadata() {
    let metadata = Metadata {
        name: "dice".to_string(),
        ..Metadata::default()
    };
    let output = LoadPluginOutput {
        metadata: Some(metadata.clone()),
        manifest: "{}".to_string(),
        error: None,
    };
    let (_manifest, loaded) = load_plugin_result(output).unwrap();
    assert_eq!(loaded, metadata);
}

#[test]
fn load_plugin_result_rejects_an_undecodable_manifest() {
    let output = LoadPluginOutput {
        metadata: Some(Metadata::default()),
        manifest: "not a manifest".to_string(),
        error: None,
    };
    assert_eq!(
        load_plugin_result(output).unwrap_err(),
        LoadPluginError::BadManifest
    );
}

#[test]
fn load_plugin_result_rejects_missing_metadata() {
    let output = LoadPluginOutput {
        metadata: None,
        manifest: "{}".to_string(),
        error: None,
    };
    assert_eq!(
        load_plugin_result(output).unwrap_err(),
        LoadPluginError::MissingMetadata
    );
}
