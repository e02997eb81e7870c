use resource_manager::document::Document;
use resource_manager::error::ErrorKind;
use resource_manager::sandbox::{SandboxContext, SandboxOutcome, WasmerEnv, EPILOGUE, PREAMBLE};

fn doc(text: &str) -> Document {
    Document::parse(text).expect("valid JSON")
}

/// The text that a script finds bound to `name`.
fn bound(script_text: &str, name: &str) -> String {
    let head = format!("const {} = ", name);
    let start = script_text.find(&head).expect("the binding") + head.len();
    let length = script_text[start..].find(";\n").expect("the end of the binding");
    script_text[start..start + length].to_string()
}

/// Stands in for the interpreter on the script that hands its context back.
fn run_echo(script_text: &str) -> SandboxOutcome {
    assert!(script_text.contains("function invoke() {return [{mykey:1, userInput"));
    let result = format!(
        "[{{\"mykey\":1,\"userInput\":{},\"resourcePoolProperties\":{},\"resourcePool\":{},\"currentResources\":{}}}]",
        bound(script_text, "userInput"),
        bound(script_text, "resourcePoolProperties"),
        bound(script_text, "resourcePool"),
        bound(script_text, "currentResources"),
    );
    SandboxOutcome::Exited { code: Some(0), stdout: result.into_bytes() }
}

fn parse_address(text: &str) -> u32 {
    let mut address: u32 = 0;
    for part in text.split('.') {
        address = address * 256 + part.parse::<u32>().expect("a number");
    }
    address
}

fn print_address(address: u32) -> String {
    format!(
        "{}.{}.{}.{}",
        address >> 24,
        (address >> 16) & 255,
        (address >> 8) & 255,
        address & 255
    )
}

/// Stands in for the interpreter on the sequential IPv4 strategy: the free
/// addresses of the network, lowest first.
fn run_ipv4(script_text: &str) -> SandboxOutcome {
    let user_input: serde_json::Value =
        serde_json::from_str(&bound(script_text, "userInput")).expect("valid JSON");
    let properties: serde_json::Value =
        serde_json::from_str(&bound(script_text, "resourcePoolProperties")).expect("valid JSON");
    let current: serde_json::Value =
        serde_json::from_str(&bound(script_text, "currentResources")).expect("valid JSON");
    let wanted = user_input["resourceCount"].as_u64().expect("a count");
    let base = parse_address(properties["address"].as_str().expect("an address"));
    let prefix = properties["prefix"].as_u64().expect("a prefix");
    let size: u64 = 1 << (32 - prefix);
    let taken: Vec<u32> = current
        .as_array()
        .expect("an array")
        .iter()
        .map(|it| parse_address(it["Properties"]["address"].as_str().expect("an address")))
        .collect();
    let mut found: Vec<String> = Vec::new();
    let mut offset: u64 = 0;
    while (found.len() as u64) < wanted && offset < size {
        let candidate = base + offset as u32;
        if !taken.contains(&candidate) {
            found.push(format!("{{\"address\":\"{}\"}}", print_address(candidate)));
        }
        offset += 1;
    }
    SandboxOutcome::Exited { code: Some(0), stdout: format!("[{}]", found.join(",")).into_bytes() }
}

fn create_some_ips(start_idx: u32, count: u32, wrap_in_properties: bool) -> Vec<Document> {
    let mut result = Vec::new();
    let mut idx = start_idx;
    while idx != start_idx + count {
        let value = format!("{{\"address\":\"10.0.0.{}\"}}", idx);
        let value = if wrap_in_properties { format!("{{\"Properties\":{}}}", value) } else { value };
        result.push(doc(&value));
        idx += 1;
    }
    result
}

#[test]
fn wasmer_invoke_and_parse() -> Result<(), ErrorKind> {
    let script = "function invoke() {\
        return [{mykey:1, userInput, resourcePoolProperties, resourcePool, currentResources}]\
        }";
    let context = SandboxContext {
        user_input: doc("{\"input\": \"input\"}"),
        resource_pool_properties: doc("{\"rpp\":\"rpp\"}"),
        resource_pool: doc("{\"rp\":\"rp\"}"),
        current_resources: vec![doc("\"res1\""), doc("\"res2\"")],
    };

    let text = WasmerEnv::compose_script(script, &context, "invoke()");
    let actual = WasmerEnv::interpret(&run_echo(&text))?;
    let expected = vec![doc(
        "{\"mykey\": 1, \"userInput\": {\"input\":\"input\"}, \"resourcePoolProperties\": {\"rpp\":\"rpp\"}, \
         \"resourcePool\": {\"rp\":\"rp\"}, \"currentResources\": [\"res1\", \"res2\"]}",
    )];
    assert_eq!(expected, actual);
    Ok(())
}

#[test]
fn execute_ipv4_script_with_mocked_data() -> Result<(), ErrorKind> {
    let script = "function invoke() { return allocateSequentially(); }";
    let user_input = doc("{\"resourceCount\": 2}");
    let resource_pool_properties = doc("{\"address\": \"10.0.0.0\", \"prefix\": 24}");
    let resource_pool = doc("{}");
    let current_resources = create_some_ips(1, 2, true); // 10.0.0.1, 10.0.0.2

    let context = SandboxContext {
        user_input: user_input.clone(),
        resource_pool_properties: resource_pool_properties.clone(),
        resource_pool: resource_pool.clone(),
        current_resources,
    };
    let text = WasmerEnv::compose_script(script, &context, "invoke()");
    let actual = WasmerEnv::interpret(&run_ipv4(&text))?;
    let expected = vec![doc("{\"address\":\"10.0.0.0\"}"), doc("{\"address\":\"10.0.0.3\"}")];
    assert_eq!(expected, actual);

    let current_resources = create_some_ips(0, 4, true); // 10.0.0.0 - 10.0.0.3

    let context =
        SandboxContext { user_input, resource_pool_properties, resource_pool, current_resources };
    let text = WasmerEnv::compose_script(script, &context, "invoke()");
    let actual = WasmerEnv::interpret(&run_ipv4(&text))?;
    let expected = vec![doc("{\"address\":\"10.0.0.4\"}"), doc("{\"address\":\"10.0.0.5\"}")];
    assert_eq!(expected, actual);

    Ok(())
}

#[test]
fn binding_is_one_const_statement() {
    assert_eq!(
        WasmerEnv::add_js_var("userInput", &doc(" { \"resourceCount\" : 2 } ")),
        "const userInput = {\"resourceCount\":2};\n"
    );
    assert_eq!(WasmerEnv::add_js_var("x", &doc("null")), "const x = null;\n");
}

#[test]
fn script_is_composed_in_fixed_order() {
    let context = SandboxContext {
        user_input: doc("{\"n\":1}"),
        resource_pool_properties: doc("[true,false]"),
        resource_pool: doc("{}"),
        current_resources: vec![doc("1"), doc("\"two\""), doc("{\"three\":3}")],
    };
    let text = WasmerEnv::compose_script("function go() { return []; }", &context, "go()");
    let expected = "\n        console.error = function(...args) {\n            std.err.puts(args.join(' '));\n            std.err.puts('\\n');\n        }\n        const log = console.error;\n        \
const userInput = {\"n\":1};\n\
const resourcePoolProperties = [true,false];\n\
const resourcePool = {};\n\
const currentResources = [1,\"two\",{\"three\":3}];\n\
function go() { return []; }\
\nlet result = go();\n\
\n        if (result != null) {\n            if (typeof result === 'object') {\n                result = JSON.stringify(result);\n            }\n            std.out.puts(result);\n        }\n        ";
    assert_eq!(text, expected);
    assert!(text.starts_with(PREAMBLE));
    assert!(text.ends_with(EPILOGUE));
}

#[test]
fn script_without_current_resources_binds_an_empty_array() {
    let context = SandboxContext {
        user_input: doc("{}"),
        resource_pool_properties: doc("{}"),
        resource_pool: doc("{}"),
        current_resources: Vec::new(),
    };
    let text = WasmerEnv::compose_script("", &context, "invoke()");
    assert_eq!(bound(&text, "currentResources"), "[]");
    let one = SandboxContext { current_resources: vec![doc("7")], ..context };
    assert_eq!(bound(&WasmerEnv::compose_script("", &one, "invoke()"), "currentResources"), "[7]");
}

#[test]
fn arguments_put_the_script_last() {
    let env = WasmerEnv::new("/opt/wasmer".to_string(), "/opt/quickjs.wasm".to_string());
    assert_eq!(
        env.arguments("console.log(2+2)"),
        vec!["/opt/quickjs.wasm", "--", "--std", "-e", "console.log(2+2)"]
    );
}

#[test]
fn output_elements_are_passed_through() {
    let actual = WasmerEnv::parse_output(b" [ 1 , {\"b\" : [ ] , \"a\" : \"x\"} , null ] ");
    assert_eq!(actual, Ok(vec![doc("1"), doc("{\"a\":\"x\",\"b\":[]}"), doc("null")]));
    assert_eq!(
        actual.expect("an array").iter().map(|d| d.as_str().to_string()).collect::<Vec<String>>(),
        vec!["1", "{\"a\":\"x\",\"b\":[]}", "null"]
    );
    assert_eq!(WasmerEnv::parse_output(b"[]"), Ok(Vec::new()));
}

#[test]
fn bare_object_is_a_protocol_violation() {
    assert_eq!(
        WasmerEnv::parse_output(b"{\"address\":\"10.0.0.1\"}"),
        Err(ErrorKind::SandboxProtocolViolation)
    );
    assert_eq!(
        WasmerEnv::interpret(&SandboxOutcome::Exited {
            code: Some(0),
            stdout: b"{\"address\":\"10.0.0.1\"}".to_vec()
        }),
        Err(ErrorKind::SandboxProtocolViolation)
    );
}

#[test]
fn other_shapes_are_protocol_violations() {
    for output in [&b"42"[..], b"\"text\"", b"null", b"", b"[1,2", b"[1] trailing", b"not json"] {
        assert_eq!(WasmerEnv::parse_output(output), Err(ErrorKind::SandboxProtocolViolation));
    }
    assert_eq!(WasmerEnv::candidates(None), Err(ErrorKind::SandboxProtocolViolation));
}

#[test]
fn candidates_keep_the_elements() {
    assert_eq!(
        WasmerEnv::candidates(Some(vec!["1".to_string(), "{\"a\":2}".to_string()])),
        Ok(vec![doc("1"), doc("{\"a\":2}")])
    );
}

#[test]
fn failed_runs_are_execution_failures() {
    let good = b"[1]".to_vec();
    assert_eq!(WasmerEnv::interpret(&SandboxOutcome::SpawnFailed), Err(ErrorKind::SandboxExecutionFailed));
    assert_eq!(WasmerEnv::interpret(&SandboxOutcome::TimedOut), Err(ErrorKind::SandboxExecutionFailed));
    assert_eq!(
        WasmerEnv::interpret(&SandboxOutcome::Exited { code: Some(1), stdout: good.clone() }),
        Err(ErrorKind::SandboxExecutionFailed)
    );
    assert_eq!(
        WasmerEnv::interpret(&SandboxOutcome::Exited { code: Some(-1), stdout: good.clone() }),
        Err(ErrorKind::SandboxExecutionFailed)
    );
    assert_eq!(
        WasmerEnv::interpret(&SandboxOutcome::Exited { code: None, stdout: good.clone() }),
        Err(ErrorKind::SandboxExecutionFailed)
    );
    assert_eq!(
        WasmerEnv::interpret(&SandboxOutcome::Exited { code: Some(0), stdout: good }),
        Ok(vec![doc("1")])
    );
}
