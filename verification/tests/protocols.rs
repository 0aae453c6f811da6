use spire_codegen::game_protocol::{number_protocols, Category, Config};
use spire_codegen::protocol_source::protocol_source;
use spire_codegen::server_protocol::{
    replace_all, Category as ProtocolCategory, Config as ServerConfig, ProtoEnum, ProtoFile, ProtocolError,
};

const TAB: &str = "    ";

fn expected_source(protocols: &[(&str, &str, u16)]) -> String {
    let mut enums = Vec::new();
    let mut decode_matches = Vec::new();
    let mut id_impls = Vec::new();
    for (protocol_name, protocol_full_name, number) in protocols {
        enums.push(format!("{TAB}{protocol_name}({protocol_full_name}),"));
        decode_matches.push(format!(
            "{TAB}{TAB}{TAB}{number} => Self::{protocol_name}({protocol_full_name}::decode(data)?),"
        ));
        id_impls.push(format!(
            r#"impl crate::protocol::Protocolic for {protocol_full_name} {{
    fn protocol_id(&self) -> u16 {{ {number} }}
}}
"#
        ));
    }
    format!(
        r#"// Generated file

#[derive(Debug)]
pub enum Protocol {{
{enums_code}
}}

impl Protocol {{
    pub fn decode(id: u16, data: bytes::Bytes) -> Result<Self, crate::protocol::Error> {{
        Ok(match id {{
{decode_matches_code}
            _ => return Err(crate::protocol::Error::ProtocolId(id)),
        }})
    }}
}}

{id_impls_code}"#,
        enums_code = enums.join("\n"),
        decode_matches_code = decode_matches.join("\n"),
        id_impls_code = id_impls.join("\n"),
    )
}

fn config() -> Config {
    Config { schema_dir: "schema".to_string(), gen_dir: "gen".to_string(), dry_run: false }
}

fn server_config() -> ServerConfig {
    ServerConfig {
        schema_dir: "schema".to_string(),
        gen_dir: "gen".to_string(),
        category_path: "category.json".to_string(),
        category_gen_path: "category.rs".to_string(),
        dry_run: false,
    }
}

fn category(name: &str, offset: u16, protocols: &[&str]) -> Category {
    Category { category: name.to_string(), offset, protocols: protocols.iter().map(|p| p.to_string()).collect() }
}

#[test]
fn protocols_are_numbered_from_the_category_offset() {
    let categories = vec![category("auth", 100, &["Login", "Logout"]), category("game", 200, &["Move"])];
    let numbered = number_protocols(&categories);
    assert_eq!(
        numbered,
        vec![
            ("Login".to_string(), "crate::protocol::auth::Login".to_string(), 100),
            ("Logout".to_string(), "crate::protocol::auth::Logout".to_string(), 101),
            ("Move".to_string(), "crate::protocol::game::Move".to_string(), 200),
        ]
    );
    let code = config().generate_impl_code(&categories);
    assert_eq!(
        code,
        expected_source(&[
            ("Login", "crate::protocol::auth::Login", 100),
            ("Logout", "crate::protocol::auth::Logout", 101),
            ("Move", "crate::protocol::game::Move", 200),
        ])
    );
}

#[test]
fn no_protocols_give_empty_lists() {
    assert_eq!(protocol_source(&Vec::new()), expected_source(&[]));
    assert_eq!(config().generate_impl_code(&Vec::new()), expected_source(&[]));
}

#[test]
fn replacing_text() {
    assert_eq!(replace_all("spire.protocol.game", ".", "::"), "spire::protocol::game");
    assert_eq!(replace_all("aaa", "aa", "b"), "ba");
    assert_eq!(replace_all("xyz", "q", "w"), "xyz");
    assert_eq!(replace_all("", "q", "w"), "");
}

fn file(name: &str, package: &str, messages: &[&str], enums: Vec<ProtoEnum>) -> ProtoFile {
    ProtoFile {
        name: name.to_string(),
        package: package.to_string(),
        messages: messages.iter().map(|m| m.to_string()).collect(),
        enums,
    }
}

fn id_enum(values: &[(&str, i32)]) -> ProtoEnum {
    ProtoEnum { name: "ProtocolId".to_string(), values: values.iter().map(|(n, v)| (n.to_string(), *v)).collect() }
}

#[test]
fn protocols_from_descriptors() {
    let files = vec![
        file("spire/auth/login.proto", "spire.protocol.auth", &["Login", "Logout"], Vec::new()),
        file("spire/protocol_id.proto", "spire.protocol", &[], vec![id_enum(&[("Login", 1), ("Logout", 2)])]),
    ];
    let code = server_config().generate_impl_code(&files).unwrap().unwrap();
    assert_eq!(
        code,
        expected_source(&[
            ("Login", "crate::protocol::auth::Login", 1),
            ("Logout", "crate::protocol::auth::Logout", 2),
        ])
    );
}

#[test]
fn later_package_wins_for_a_message() {
    let files = vec![
        file("a.proto", "spire.a", &["Ping"], Vec::new()),
        file("b.proto", "spire.b", &["Ping"], Vec::new()),
        file("protocol_id.proto", "spire", &[], vec![id_enum(&[("Ping", 7)])]),
    ];
    let code = server_config().generate_impl_code(&files).unwrap().unwrap();
    assert_eq!(code, expected_source(&[("Ping", "crate::b::Ping", 7)]));
}

#[test]
fn missing_protocol_id_file_or_enum() {
    let files = vec![file("a.proto", "spire.a", &["Ping"], Vec::new())];
    assert_eq!(server_config().generate_impl_code(&files), Some(Err(ProtocolError::IdFileNotFound)));
    assert_eq!(ProtocolError::IdFileNotFound.message(), "protocol_id.proto file not found!");
    let files = vec![file("protocol_id.proto", "spire", &[], Vec::new())];
    assert_eq!(server_config().generate_impl_code(&files), Some(Err(ProtocolError::IdEnumNotFound)));
    assert_eq!(ProtocolError::IdEnumNotFound.message(), "ProtocolId enum type not found");
}

#[test]
fn undeclared_protocol_stops_the_generator() {
    let files = vec![file("protocol_id.proto", "spire", &[], vec![id_enum(&[("Ghost", 3)])])];
    assert_eq!(server_config().generate_impl_code(&files), None);
}

#[test]
fn category_source() {
    let categories = vec![
        ProtocolCategory { name: "Auth".to_string(), value: 1 },
        ProtocolCategory { name: "Game".to_string(), value: 2 },
    ];
    let code = server_config().generate_category(&categories);
    let category_definitions_code = format!("{TAB}Auth = 1,\n{TAB}Game = 2,");
    let category_matches_code = format!("{TAB}{TAB}{TAB}1 => Self::Auth,\n{TAB}{TAB}{TAB}2 => Self::Game,");
    let expected = format!(
        r#"//Generated code
#[derive(Debug, Clone, Copy, Hash, PartialEq)]
pub enum Category {{
{category_definitions_code}
}}

impl Category {{
    pub fn decode(value: u8) -> Result<Self, crate::protocol::Error> {{
        Ok(match value {{
{category_matches_code}
            _ => return Err(crate::protocol::Error::InvalidCategory(value)),
        }})
    }}
}}
"#
    );
    assert_eq!(code, expected);
}
