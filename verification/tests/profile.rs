use quarantine::profile::{App, Binary, Devices, Filesystem, Profile, ProfileError, Share, Socket};

const EXAMPLE: &str = r#"
[app]
name = "Example"
identifier = "org.example.App"

[binary]
path = "/usr/bin/example"
args = ["--flag"]

[share]
net = false

[filesystem]
ro_bind = ["/etc"]
rw_bind = [["/home/user/data", "/data"]]

[socket]
wayland = true

[devices]
dri = true
"#;

const MINIMAL: &str = r#"
[app]
name = "Example"
identifier = "org.example.App"

[binary]
path = "/usr/bin/example"
"#;

fn pair(first: &str, second: &str) -> (String, String) {
    (first.to_string(), second.to_string())
}

fn missing(result: Result<Profile, ProfileError>) -> String {
    match result {
        Err(ProfileError::MissingField(field)) => field,
        other => panic!("expected a missing field, got {:?}", other),
    }
}

fn diagnostic(result: Result<Profile, ProfileError>) -> String {
    match result {
        Err(ProfileError::TomlParseError(error)) => error.message().to_string(),
        other => panic!("expected a parse error, got {:?}", other),
    }
}

fn absent(result: Result<Profile, ProfileError>) -> String {
    let message = diagnostic(result);
    match message.strip_prefix("missing field `").and_then(|rest| rest.strip_suffix('`')) {
        Some(field) => field.to_string(),
        None => panic!("expected a missing field, got {:?}", message),
    }
}

fn mistyped(result: Result<Profile, ProfileError>) -> (String, String) {
    let message = diagnostic(result);
    match message.strip_prefix("invalid type for `").and_then(|rest| rest.split_once("`: expected ")) {
        Some((field, expected)) => (field.to_string(), expected.to_string()),
        None => panic!("expected an invalid type, got {:?}", message),
    }
}

fn sample() -> Profile {
    Profile {
        app: App { name: "Example".to_string(), identifier: "org.example.App".to_string() },
        binary: Binary { path: "/usr/bin/example".to_string(), args: vec!["-v".to_string()] },
        share: Share { net: true, ipc: false },
        filesystem: Filesystem {
            ro_bind: vec!["/etc".to_string()],
            rw_bind: vec![pair("/a", "/b")],
            symlinks: Vec::new(),
        },
        socket: Socket {
            pipewire: false,
            pulseaudio: true,
            session_bus: false,
            system_bus: false,
            wayland: true,
        },
        devices: Devices { all: false, dri: true, kvm: false, shm: false },
    }
}

#[test]
fn example_profile_parses_with_every_value() {
    let profile = Profile::from_toml(EXAMPLE).unwrap();
    assert_eq!(profile.app.name, "Example");
    assert_eq!(profile.app.identifier, "org.example.App");
    assert_eq!(profile.binary.path, "/usr/bin/example");
    assert_eq!(profile.binary.args, vec!["--flag".to_string()]);
    assert!(!profile.share.net);
    assert!(!profile.share.ipc);
    assert_eq!(profile.filesystem.ro_bind, vec!["/etc".to_string()]);
    assert_eq!(profile.filesystem.rw_bind, vec![pair("/home/user/data", "/data")]);
    assert!(profile.filesystem.symlinks.is_empty());
    assert!(!profile.socket.pipewire);
    assert!(!profile.socket.pulseaudio);
    assert!(!profile.socket.session_bus);
    assert!(!profile.socket.system_bus);
    assert!(profile.socket.wayland);
    assert!(!profile.devices.all);
    assert!(profile.devices.dri);
    assert!(!profile.devices.kvm);
    assert!(!profile.devices.shm);
}

#[test]
fn every_field_round_trips() {
    let text = r#"
[app]
name = "N"
identifier = "I"

[binary]
path = "P"
args = ["a", "", "c"]

[share]
net = true
ipc = true

[filesystem]
ro_bind = ["/r1", "/r2", "/r1"]
rw_bind = [["/w1", "/w2"], ["/w3", "/w4"]]
symlinks = [["/s1", "/s2"]]

[socket]
pipewire = true
pulseaudio = true
session_bus = true
system_bus = true
wayland = true

[devices]
all = true
dri = true
kvm = true
shm = true
"#;
    let profile = Profile::from_toml(text).unwrap();
    assert_eq!(profile.app.name, "N");
    assert_eq!(profile.app.identifier, "I");
    assert_eq!(profile.binary.path, "P");
    assert_eq!(profile.binary.args, vec!["a".to_string(), String::new(), "c".to_string()]);
    assert!(profile.share.net && profile.share.ipc);
    assert_eq!(
        profile.filesystem.ro_bind,
        vec!["/r1".to_string(), "/r2".to_string(), "/r1".to_string()]
    );
    assert_eq!(profile.filesystem.rw_bind, vec![pair("/w1", "/w2"), pair("/w3", "/w4")]);
    assert_eq!(profile.filesystem.symlinks, vec![pair("/s1", "/s2")]);
    assert!(profile.socket.pipewire && profile.socket.pulseaudio && profile.socket.session_bus);
    assert!(profile.socket.system_bus && profile.socket.wayland);
    assert!(profile.devices.all && profile.devices.dri && profile.devices.kvm);
    assert!(profile.devices.shm);
}

#[test]
fn omitted_sections_take_defaults() {
    let profile = Profile::from_toml(MINIMAL).unwrap();
    assert_eq!(profile.app.name, "Example");
    assert!(profile.binary.args.is_empty());
    assert!(!profile.share.net && !profile.share.ipc);
    assert!(profile.filesystem.ro_bind.is_empty());
    assert!(profile.filesystem.rw_bind.is_empty());
    assert!(profile.filesystem.symlinks.is_empty());
    assert!(!profile.socket.pipewire && !profile.socket.pulseaudio);
    assert!(!profile.socket.session_bus && !profile.socket.system_bus);
    assert!(!profile.socket.wayland);
    assert!(!profile.devices.all && !profile.devices.dri);
    assert!(!profile.devices.kvm && !profile.devices.shm);
}

#[test]
fn omitted_fields_of_a_present_section_take_defaults() {
    let text = format!("{}\n[share]\nipc = true\n\n[socket]\n\n[filesystem]\nsymlinks = []\n", MINIMAL);
    let profile = Profile::from_toml(&text).unwrap();
    assert!(!profile.share.net);
    assert!(profile.share.ipc);
    assert!(!profile.socket.wayland);
    assert!(profile.filesystem.ro_bind.is_empty());
    assert!(profile.filesystem.symlinks.is_empty());
}

#[test]
fn empty_name_is_reported_even_with_an_empty_path() {
    let text = r#"
[app]
name = ""
identifier = "org.example.App"

[binary]
path = ""
"#;
    assert_eq!(missing(Profile::from_toml(text)), "app.name");
}

#[test]
fn empty_name_is_reported_before_an_empty_identifier() {
    let text = "[app]\nname = \"\"\nidentifier = \"\"\n[binary]\npath = \"\"\n";
    assert_eq!(missing(Profile::from_toml(text)), "app.name");
}

#[test]
fn empty_identifier_is_reported_before_an_empty_path() {
    let text = "[app]\nname = \"n\"\nidentifier = \"\"\n[binary]\npath = \"\"\n";
    assert_eq!(missing(Profile::from_toml(text)), "app.identifier");
}

#[test]
fn empty_path_is_reported() {
    let text = "[app]\nname = \"n\"\nidentifier = \"i\"\n[binary]\npath = \"\"\n";
    assert_eq!(missing(Profile::from_toml(text)), "binary.path");
}

#[test]
fn unterminated_string_is_a_parse_error() {
    let text = "[app]\nname = \"Example\nidentifier = \"org.example.App\"\n";
    match Profile::from_toml(text) {
        Err(ProfileError::TomlParseError(error)) => assert!(!error.message().is_empty()),
        other => panic!("expected a parse error, got {:?}", other),
    }
}

#[test]
fn malformed_text_with_empty_name_is_a_parse_error() {
    let text = "[app]\nname = \"\"\nidentifier = \n";
    assert!(matches!(Profile::from_toml(text), Err(ProfileError::TomlParseError(_))));
}

#[test]
fn duplicate_key_is_a_parse_error() {
    let text = "[app]\nname = \"a\"\nname = \"b\"\n";
    assert!(matches!(Profile::from_toml(text), Err(ProfileError::TomlParseError(_))));
}

#[test]
fn structural_faults_carry_a_diagnostic_that_names_the_field() {
    let text = "[app]\nidentifier = \"i\"\n[binary]\npath = \"p\"\n";
    assert_eq!(diagnostic(Profile::from_toml(text)), "missing field `app.name`");
    let text = format!("{}\n[share]\nnet = \"yes\"\n", MINIMAL);
    assert_eq!(
        diagnostic(Profile::from_toml(&text)),
        "invalid type for `share.net`: expected a boolean"
    );
    let text = "[app]\nname = \"n\"\nidentifier = \"i\"\n[binary]\npath = \"p\"\nargs = \"x\"\n";
    assert_eq!(
        diagnostic(Profile::from_toml(text)),
        "invalid type for `binary.args`: expected an array of strings"
    );
    let text = format!("socket = 3\n{}", MINIMAL);
    assert_eq!(diagnostic(Profile::from_toml(&text)), "invalid type for `socket`: expected a table");
}

#[test]
fn structural_fault_is_never_a_missing_field() {
    let text = "[app]\nname = \"\"\nidentifier = \"\"\n[binary]\nargs = []\n";
    assert!(matches!(Profile::from_toml(text), Err(ProfileError::TomlParseError(_))));
    let text = "[app]\nname = \"\"\nidentifier = \"i\"\n[binary]\npath = \"\"\n[share]\nnet = \"yes\"\n";
    assert!(matches!(Profile::from_toml(text), Err(ProfileError::TomlParseError(_))));
    let text = "[app]\nname = \"\"\nidentifier = \"i\"\n[binary]\npath = \"p\"\nargs = \"x\"\n";
    assert!(matches!(Profile::from_toml(text), Err(ProfileError::TomlParseError(_))));
}

#[test]
fn parser_diagnostic_is_kept() {
    let text = "[app]\nname = \"a\"\nname = \"b\"\n";
    let expected = toml::from_str::<toml::Table>(text).unwrap_err();
    match Profile::from_toml(text) {
        Err(ProfileError::TomlParseError(error)) => {
            assert_eq!(error.message(), expected.message());
            assert_eq!(error, expected);
        }
        other => panic!("expected a parse error, got {:?}", other),
    }
}

#[test]
fn empty_text_lacks_the_name() {
    assert_eq!(absent(Profile::from_toml("")), "app.name");
}

#[test]
fn absent_name_is_reported() {
    let text = "[app]\nidentifier = \"i\"\n[binary]\npath = \"p\"\n";
    assert_eq!(absent(Profile::from_toml(text)), "app.name");
}

#[test]
fn absent_identifier_is_reported() {
    let text = "[app]\nname = \"n\"\n[binary]\npath = \"p\"\n";
    assert_eq!(absent(Profile::from_toml(text)), "app.identifier");
}

#[test]
fn absent_binary_section_lacks_the_path() {
    let text = "[app]\nname = \"n\"\nidentifier = \"i\"\n";
    assert_eq!(absent(Profile::from_toml(text)), "binary.path");
}

#[test]
fn absent_field_is_reported_before_an_empty_one() {
    let text = "[app]\nname = \"\"\nidentifier = \"i\"\n[binary]\nargs = []\n";
    assert_eq!(absent(Profile::from_toml(text)), "binary.path");
}

#[test]
fn string_for_a_boolean_is_rejected() {
    let text = format!("{}\n[share]\nnet = \"yes\"\n", MINIMAL);
    assert_eq!(
        mistyped(Profile::from_toml(&text)),
        ("share.net".to_string(), "a boolean".to_string())
    );
}

#[test]
fn integer_for_a_string_is_rejected() {
    let text = "[app]\nname = 7\nidentifier = \"i\"\n[binary]\npath = \"p\"\n";
    assert_eq!(mistyped(Profile::from_toml(text)), ("app.name".to_string(), "a string".to_string()));
}

#[test]
fn scalar_for_a_section_is_rejected() {
    let text = format!("devices = true\n{}", MINIMAL);
    assert_eq!(mistyped(Profile::from_toml(&text)), ("devices".to_string(), "a table".to_string()));
}

#[test]
fn array_with_a_number_is_rejected() {
    let text = "[app]\nname = \"n\"\nidentifier = \"i\"\n[binary]\npath = \"p\"\nargs = [1]\n";
    assert_eq!(
        mistyped(Profile::from_toml(text)),
        ("binary.args".to_string(), "an array of strings".to_string())
    );
}

#[test]
fn string_for_an_array_is_rejected() {
    let text = format!("{}\n[filesystem]\nro_bind = \"/etc\"\n", MINIMAL);
    assert_eq!(
        mistyped(Profile::from_toml(&text)),
        ("filesystem.ro_bind".to_string(), "an array of strings".to_string())
    );
}

#[test]
fn pair_with_one_half_is_rejected() {
    let text = format!("{}\n[filesystem]\nrw_bind = [[\"/a\"]]\n", MINIMAL);
    assert_eq!(
        mistyped(Profile::from_toml(&text)),
        ("filesystem.rw_bind".to_string(), "an array of pairs of strings".to_string())
    );
}

#[test]
fn pair_with_three_parts_is_rejected() {
    let text = format!("{}\n[filesystem]\nsymlinks = [[\"/a\", \"/b\", \"/c\"]]\n", MINIMAL);
    assert_eq!(
        mistyped(Profile::from_toml(&text)),
        ("filesystem.symlinks".to_string(), "an array of pairs of strings".to_string())
    );
}

#[test]
fn pair_of_a_string_and_a_boolean_is_rejected() {
    let text = format!("{}\n[filesystem]\nrw_bind = [[\"/a\", \"/b\"], [\"/c\", true]]\n", MINIMAL);
    assert_eq!(
        mistyped(Profile::from_toml(&text)),
        ("filesystem.rw_bind".to_string(), "an array of pairs of strings".to_string())
    );
}

#[test]
fn flat_array_for_pairs_is_rejected() {
    let text = format!("{}\n[filesystem]\nrw_bind = [\"/a\", \"/b\"]\n", MINIMAL);
    assert_eq!(
        mistyped(Profile::from_toml(&text)),
        ("filesystem.rw_bind".to_string(), "an array of pairs of strings".to_string())
    );
}

#[test]
fn first_fault_in_schema_order_is_reported() {
    let text = "[devices]\nshm = 1\n[share]\nipc = 2\n[app]\nname = \"n\"\nidentifier = \"i\"\n[binary]\npath = \"p\"\n";
    assert_eq!(mistyped(Profile::from_toml(text)), ("share.ipc".to_string(), "a boolean".to_string()));
}

#[test]
fn wrong_type_is_reported_before_an_empty_name() {
    let text = "[app]\nname = \"\"\nidentifier = \"i\"\n[binary]\npath = \"p\"\n[devices]\nkvm = \"x\"\n";
    assert_eq!(
        mistyped(Profile::from_toml(text)),
        ("devices.kvm".to_string(), "a boolean".to_string())
    );
}

#[test]
fn unknown_keys_and_sections_are_ignored() {
    let text = format!("title = \"x\"\n{}\nextra = 1\n[other]\nkey = 1.5\n", MINIMAL);
    let profile = Profile::from_toml(&text).unwrap();
    assert_eq!(profile.binary.path, "/usr/bin/example");
}

#[test]
fn inline_tables_are_sections() {
    let text = "app = { name = \"n\", identifier = \"i\" }\nbinary = { path = \"p\" }\nshare = { net = true }\n";
    let profile = Profile::from_toml(text).unwrap();
    assert_eq!(profile.app.name, "n");
    assert_eq!(profile.app.identifier, "i");
    assert_eq!(profile.binary.path, "p");
    assert!(profile.share.net);
}

#[test]
fn decode_reads_a_document_built_by_hand() {
    let mut app = toml::Table::new();
    app.insert("name".to_string(), toml::Value::String("n".to_string()));
    app.insert("identifier".to_string(), toml::Value::String("i".to_string()));
    let mut binary = toml::Table::new();
    binary.insert("path".to_string(), toml::Value::String("p".to_string()));
    binary.insert(
        "args".to_string(),
        toml::Value::Array(vec![toml::Value::String("x".to_string())]),
    );
    let mut devices = toml::Table::new();
    devices.insert("kvm".to_string(), toml::Value::Boolean(true));
    let mut document = toml::Table::new();
    document.insert("app".to_string(), toml::Value::Table(app));
    document.insert("binary".to_string(), toml::Value::Table(binary));
    document.insert("devices".to_string(), toml::Value::Table(devices));
    let profile = Profile::decode(&toml::Value::Table(document)).unwrap();
    assert_eq!(profile.app.name, "n");
    assert_eq!(profile.app.identifier, "i");
    assert_eq!(profile.binary.path, "p");
    assert_eq!(profile.binary.args, vec!["x".to_string()]);
    assert!(profile.devices.kvm);
    assert!(!profile.devices.dri);
}

#[test]
fn decode_does_not_ask_whether_a_string_is_empty() {
    let mut app = toml::Table::new();
    app.insert("name".to_string(), toml::Value::String(String::new()));
    app.insert("identifier".to_string(), toml::Value::String(String::new()));
    let mut binary = toml::Table::new();
    binary.insert("path".to_string(), toml::Value::String(String::new()));
    let mut document = toml::Table::new();
    document.insert("app".to_string(), toml::Value::Table(app));
    document.insert("binary".to_string(), toml::Value::Table(binary));
    let profile = Profile::decode(&toml::Value::Table(document)).unwrap();
    assert_eq!(profile.app.name, "");
    assert_eq!(missing(profile.validate()), "app.name");
}

#[test]
fn decode_of_a_value_that_is_no_table_lacks_the_name() {
    assert_eq!(absent(Profile::decode(&toml::Value::String("app".to_string()))), "app.name");
    assert_eq!(absent(Profile::decode(&toml::Value::Array(Vec::new()))), "app.name");
}

#[test]
fn decode_rejects_dates_and_floats_for_strings() {
    let text = "[app]\nname = 1979-05-27\nidentifier = \"i\"\n[binary]\npath = \"p\"\n";
    assert_eq!(mistyped(Profile::from_toml(text)), ("app.name".to_string(), "a string".to_string()));
    let text = "[app]\nname = \"n\"\nidentifier = 1.5\n[binary]\npath = \"p\"\n";
    assert_eq!(
        mistyped(Profile::from_toml(text)),
        ("app.identifier".to_string(), "a string".to_string())
    );
}

#[test]
fn validate_hands_back_a_valid_profile_unchanged() {
    let profile = sample().validate().unwrap();
    let expected = sample();
    assert_eq!(profile.app.name, expected.app.name);
    assert_eq!(profile.app.identifier, expected.app.identifier);
    assert_eq!(profile.binary.path, expected.binary.path);
    assert_eq!(profile.binary.args, expected.binary.args);
    assert_eq!(profile.share.net, expected.share.net);
    assert_eq!(profile.filesystem.ro_bind, expected.filesystem.ro_bind);
    assert_eq!(profile.filesystem.rw_bind, expected.filesystem.rw_bind);
    assert_eq!(profile.socket.pulseaudio, expected.socket.pulseaudio);
    assert_eq!(profile.devices.dri, expected.devices.dri);
}

#[test]
fn validate_names_the_first_empty_field() {
    let mut profile = sample();
    profile.binary.path = String::new();
    assert_eq!(missing(profile.validate()), "binary.path");
    let mut profile = sample();
    profile.binary.path = String::new();
    profile.app.identifier = String::new();
    assert_eq!(missing(profile.validate()), "app.identifier");
    let mut profile = sample();
    profile.binary.path = String::new();
    profile.app.identifier = String::new();
    profile.app.name = String::new();
    assert_eq!(missing(profile.validate()), "app.name");
}

#[test]
fn validate_accepts_empty_collections() {
    let mut profile = sample();
    profile.binary.args = Vec::new();
    profile.filesystem.ro_bind = Vec::new();
    assert!(profile.validate().is_ok());
}

#[test]
fn strings_keep_their_characters() {
    let text = "[app]\nname = \"Ünï \\\"q\\\" \\n\"\nidentifier = 'a\\b'\n[binary]\npath = \" \"\n";
    let profile = Profile::from_toml(text).unwrap();
    assert_eq!(profile.app.name, "Ünï \"q\" \n");
    assert_eq!(profile.app.identifier, "a\\b");
    assert_eq!(profile.binary.path, " ");
}
