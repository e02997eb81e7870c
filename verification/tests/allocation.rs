use resource_manager::allocation::{candidate_resources, context_for, ENTRY_EXPRESSION};
use resource_manager::document::Document;
use resource_manager::error::ErrorKind;
use resource_manager::pool::{Resource, ResourcePool};
use resource_manager::sandbox::{SandboxContext, SandboxOutcome, WasmerEnv};
use resource_manager::store::DB;

const IPV4_ALLOCATION_STRATEGY_ID: i32 = 1;
const IPV4_SCRIPT: &str = "function invoke() { return allocateSequentially(); }";

fn doc(text: &str) -> Document {
    Document::parse(text).expect("valid JSON")
}

fn seeded_db() -> DB {
    let mut db = DB::new();
    assert_eq!(db.insert_allocation_strategy(IPV4_SCRIPT), Ok(IPV4_ALLOCATION_STRATEGY_ID));
    db
}

fn create_pool(db: &mut DB, name: &str) -> Result<ResourcePool, ErrorKind> {
    assert!(db.get_resource_pool_by_name(name).is_err());
    db.insert_resource_pool(name, IPV4_ALLOCATION_STRATEGY_ID)
}

fn bound(script_text: &str, name: &str) -> String {
    let head = format!("const {} = ", name);
    let start = script_text.find(&head).expect("the binding") + head.len();
    let length = script_text[start..].find(";\n").expect("the end of the binding");
    script_text[start..start + length].to_string()
}

fn parse_address(text: &str) -> u32 {
    let mut address: u32 = 0;
    for part in text.split('.') {
        address = address * 256 + part.parse::<u32>().expect("a number");
    }
    address
}

fn print_address(address: u32) -> String {
    format!(
        "{}.{}.{}.{}",
        address >> 24,
        (address >> 16) & 255,
        (address >> 8) & 255,
        address & 255
    )
}

/// Stands in for the interpreter on the sequential IPv4 strategy: the free
/// addresses of the network, lowest first.
fn run_ipv4(script_text: &str) -> SandboxOutcome {
    assert!(script_text.contains(IPV4_SCRIPT));
    let user_input: serde_json::Value =
        serde_json::from_str(&bound(script_text, "userInput")).expect("valid JSON");
    let properties: serde_json::Value =
        serde_json::from_str(&bound(script_text, "resourcePoolProperties")).expect("valid JSON");
    let current: serde_json::Value =
        serde_json::from_str(&bound(script_text, "currentResources")).expect("valid JSON");
    let wanted = user_input["resourceCount"].as_u64().expect("a count");
    let base = parse_address(properties["address"].as_str().expect("an address"));
    let prefix = properties["prefix"].as_u64().expect("a prefix");
    let size: u64 = 1 << (32 - prefix);
    let taken: Vec<u32> = current
        .as_array()
        .expect("an array")
        .iter()
        .map(|it| parse_address(it["Properties"]["address"].as_str().expect("an address")))
        .collect();
    let mut found: Vec<String> = Vec::new();
    let mut offset: u64 = 0;
    while (found.len() as u64) < wanted && offset < size {
        let candidate = base + offset as u32;
        if !taken.contains(&candidate) {
            found.push(format!("{{\"address\":\"{}\"}}", print_address(candidate)));
        }
        offset += 1;
    }
    SandboxOutcome::Exited { code: Some(0), stdout: format!("[{}]", found.join(",")).into_bytes() }
}

fn allocate(db: &mut DB, pool: ResourcePool, user_input: Document) -> Result<(ResourcePool, Vec<Resource>), ErrorKind> {
    let text = db.allocation_script(&pool, user_input)?;
    let outcome = run_ipv4(&text);
    db.allocate_resources(pool, &outcome)
}

fn create_some_ips(start_idx: u32, count: u32) -> Vec<String> {
    (start_idx..start_idx + count).map(|idx| format!("10.0.0.{}", idx)).collect()
}

#[test]
fn execute_ipv4_script_with_db() -> Result<(), ErrorKind> {
    let row_count: i32 = 100;
    let iterations: i32 = 2;

    let mut db = seeded_db();
    let mut pool = create_pool(&mut db, "Ht5Gq8Wn2s")?;
    let old_version = pool.version;
    let user_input = doc(&format!("{{\"resourceCount\": {}}}", row_count));
    for iteration in 1..iterations + 1 {
        let (pool2, _resources) = allocate(&mut db, pool, user_input.clone())?;
        pool = pool2;
        // check that version is incremented
        let expected_version = old_version + iteration;
        assert_eq!(pool.version, expected_version);
        assert_eq!(db.get_resource_pool_by_id(pool.id)?.version, expected_version);

        let found_resources = db.get_resources(pool.id);
        let mut actual = found_resources
            .into_iter()
            .map(|it| {
                let value: serde_json::Value = serde_json::from_str(it.value.as_str()).expect("valid JSON");
                value
                    .get("address")
                    .expect("address must exist")
                    .as_str()
                    .expect("address value must be a string")
                    .to_owned()
            })
            .collect::<Vec<String>>();
        actual.sort();
        let mut expected = create_some_ips(0, (row_count * iteration) as u32);
        expected.sort();
        assert_eq!(expected, actual);
    }
    Ok(())
}

#[test]
fn context_shows_the_pool_and_its_resources() {
    let mut db = seeded_db();
    let pool = create_pool(&mut db, "shown").expect("a fresh name");
    let other = create_pool(&mut db, "other").expect("a fresh name");
    let (pool, _) = db
        .commit_allocation(pool, vec![doc("{\"address\":\"10.0.0.1\"}"), doc("{\"address\":\"10.0.0.2\"}")])
        .expect("a fresh batch");
    db.commit_allocation(other, vec![doc("{\"address\":\"10.9.9.9\"}")]).expect("a fresh batch");
    let context = db.allocation_context(&pool, doc("{\"resourceCount\":2}"));
    assert_eq!(
        context,
        SandboxContext {
            user_input: doc("{\"resourceCount\":2}"),
            resource_pool_properties: doc("{\"address\":\"10.0.0.0\",\"prefix\":8}"),
            resource_pool: doc("{}"),
            current_resources: vec![
                doc("{\"Properties\":{\"address\":\"10.0.0.1\"}}"),
                doc("{\"Properties\":{\"address\":\"10.0.0.2\"}}"),
            ],
        }
    );
    let text = db.allocation_script(&pool, doc("{\"resourceCount\":2}")).expect("the strategy");
    assert_eq!(text, WasmerEnv::compose_script(IPV4_SCRIPT, &context, "invoke()"));
    assert_eq!(ENTRY_EXPRESSION, "invoke()");
    assert_eq!(
        bound(&text, "currentResources"),
        "[{\"Properties\":{\"address\":\"10.0.0.1\"}},{\"Properties\":{\"address\":\"10.0.0.2\"}}]"
    );
}

#[test]
fn allocation_without_strategy_is_not_found() {
    let mut db = DB::new();
    let pool = db.insert_resource_pool("orphan", 5).expect("a fresh name");
    assert_eq!(db.allocation_script(&pool, doc("{}")), Err(ErrorKind::NotFound));
}

#[test]
fn sandbox_error_commits_nothing() {
    let mut db = seeded_db();
    let pool = create_pool(&mut db, "failing").expect("a fresh name");
    for outcome in [
        SandboxOutcome::SpawnFailed,
        SandboxOutcome::TimedOut,
        SandboxOutcome::Exited { code: Some(2), stdout: b"[{\"address\":\"10.0.0.1\"}]".to_vec() },
    ] {
        assert_eq!(db.allocate_resources(pool.clone(), &outcome), Err(ErrorKind::SandboxExecutionFailed));
    }
    let object = SandboxOutcome::Exited { code: Some(0), stdout: b"{\"address\":\"10.0.0.1\"}".to_vec() };
    assert_eq!(db.allocate_resources(pool.clone(), &object), Err(ErrorKind::SandboxProtocolViolation));
    let nothing = SandboxOutcome::Exited { code: Some(0), stdout: b"[]".to_vec() };
    assert_eq!(db.allocate_resources(pool.clone(), &nothing), Err(ErrorKind::EmptyAllocation));
    assert_eq!(db.get_resource_pool_by_id(pool.id), Ok(pool.clone()));
    assert!(db.get_resources(pool.id).is_empty());
}

#[test]
fn allocation_commits_the_candidates() {
    let mut db = seeded_db();
    let pool = create_pool(&mut db, "direct").expect("a fresh name");
    let outcome = SandboxOutcome::Exited {
        code: Some(0),
        stdout: b"[ {\"address\": \"10.0.0.7\"}, {\"address\": \"10.0.0.9\"} ]".to_vec(),
    };
    let (pool, stored) = db.allocate_resources(pool, &outcome).expect("a fresh batch");
    assert_eq!(pool.version, 1);
    assert_eq!(
        stored,
        vec![
            Resource { id: Some(1), resource_pool_id: 1, value: doc("{\"address\":\"10.0.0.7\"}") },
            Resource { id: Some(2), resource_pool_id: 1, value: doc("{\"address\":\"10.0.0.9\"}") },
        ]
    );
    assert_eq!(db.get_resources(1), stored);
}

#[test]
fn concurrent_allocations_from_one_version_commit_once() {
    let mut db = seeded_db();
    let pool = create_pool(&mut db, "contended").expect("a fresh name");
    // both writers read the pool and run their strategy before either commits
    let first = db.get_resource_pool_by_id(pool.id).expect("the pool");
    let second = db.get_resource_pool_by_id(pool.id).expect("the pool");
    let first_outcome = SandboxOutcome::Exited { code: Some(0), stdout: b"[{\"address\":\"10.0.0.0\"}]".to_vec() };
    let second_outcome = SandboxOutcome::Exited { code: Some(0), stdout: b"[{\"address\":\"10.0.0.1\"}]".to_vec() };
    let committed = db.allocate_resources(first, &first_outcome);
    let lost = db.allocate_resources(second, &second_outcome);
    assert!(committed.is_ok());
    assert_eq!(lost, Err(ErrorKind::VersionConflict));
    assert_eq!(db.get_resources(pool.id).len(), 1);
    assert_eq!(db.get_resource_pool_by_id(pool.id).map(|p| p.version), Ok(1));
}

#[test]
fn context_wraps_each_resource() {
    let pool = ResourcePool { id: 4, name: "p".to_string(), version: 2, allocation_strategy_id: 1 };
    let current = vec![
        Resource { id: Some(10), resource_pool_id: 4, value: doc("{\"address\":\"10.0.0.1\"}") },
        Resource { id: Some(11), resource_pool_id: 4, value: doc("17") },
    ];
    let context = context_for(&pool, &current, doc("{\"resourceCount\":1}"));
    assert_eq!(context.user_input, doc("{\"resourceCount\":1}"));
    assert_eq!(context.resource_pool_properties, pool.get_pool_properties());
    assert_eq!(context.resource_pool, pool.as_json());
    assert_eq!(
        context.current_resources,
        vec![doc("{\"Properties\":{\"address\":\"10.0.0.1\"}}"), doc("{\"Properties\":17}")]
    );
    assert!(context_for(&pool, &Vec::new(), doc("null")).current_resources.is_empty());
}

#[test]
fn candidates_become_unstored_resources_of_the_pool() {
    assert_eq!(
        candidate_resources(6, vec![doc("1"), doc("{\"a\":2}")]),
        vec![
            Resource { id: None, resource_pool_id: 6, value: doc("1") },
            Resource { id: None, resource_pool_id: 6, value: doc("{\"a\":2}") },
        ]
    );
    assert!(candidate_resources(6, Vec::new()).is_empty());
}
