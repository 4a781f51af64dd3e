use pxe_cloud_init::agent_config::{
    agent_config_file, generate_forge_agent_config, AgentConfigFromPxe, ForgeSystemConfigFromPxe,
    MachineConfigFromPxe,
};

const INTERFACE_ID: &str = "91609f10-c91d-470d-a260-6293ea0c1234";

#[test]
fn forge_agent_config() {
    let config = generate_forge_agent_config(INTERFACE_ID, None);

    // The intent here is to test what the written configuration file looks like.
    assert_eq!(
        config,
        "[machine]\ninterface-id = \"91609f10-c91d-470d-a260-6293ea0c1234\"\n"
    );

    let data: toml::Value = toml::from_str(&config).unwrap();

    assert_eq!(
        data.get("machine")
            .unwrap()
            .get("interface-id")
            .unwrap()
            .as_str()
            .unwrap(),
        INTERFACE_ID,
    );

    // No forge-system section when no override is provided.
    assert!(data.get("forge-system").is_none());

    // is_fake_dpu is left out of the file.
    let skipped = match data.get("machine").unwrap().get("is_fake_dpu") {
        Some(_val) => false,
        None => true,
    };
    assert!(skipped);
}

#[test]
fn forge_agent_config_with_external_api_url() {
    let config = generate_forge_agent_config(INTERFACE_ID, Some("https://10.99.0.1:1079"));

    assert_eq!(
        config,
        "[forge-system]\napi-server = \"https://10.99.0.1:1079\"\n\n\
         [machine]\ninterface-id = \"91609f10-c91d-470d-a260-6293ea0c1234\"\n"
    );

    let data: toml::Value = toml::from_str(&config).unwrap();

    assert_eq!(
        data.get("forge-system")
            .unwrap()
            .get("api-server")
            .unwrap()
            .as_str()
            .unwrap(),
        "https://10.99.0.1:1079",
    );

    assert_eq!(
        data.get("machine")
            .unwrap()
            .get("interface-id")
            .unwrap()
            .as_str()
            .unwrap(),
        INTERFACE_ID,
    );
}

#[test]
fn texts_that_need_quoting_survive() {
    for url in [
        "https://a/\"quoted\"",
        "back\\slash",
        "two\nlines",
        "tab\there",
        "it's \"both\" \\ of them",
        "\u{1}\u{7f}",
        "",
        "caf\u{e9}",
    ] {
        let config = generate_forge_agent_config("id", Some(url));
        let data: toml::Value = toml::from_str(&config).unwrap();
        assert_eq!(
            data.get("forge-system")
                .unwrap()
                .get("api-server")
                .unwrap()
                .as_str()
                .unwrap(),
            url
        );
    }
}

/// The tables that a reader finds in the file, in order.
fn tables_read(config: &str) -> Vec<(String, Vec<(String, String)>)> {
    let document: toml::Table = toml::from_str(config).unwrap();
    let mut tables = Vec::new();
    for (name, table) in &document {
        let mut fields = Vec::new();
        for (key, value) in table.as_table().unwrap() {
            fields.push((key.clone(), value.as_str().unwrap().to_string()));
        }
        tables.push((name.clone(), fields));
    }
    tables
}

fn table(name: &str, key: &str, value: &str) -> (String, Vec<(String, String)>) {
    (
        name.to_string(),
        vec![(key.to_string(), value.to_string())],
    )
}

/// All texts of at most `longest` of the characters.
fn texts(characters: &[char], longest: usize) -> Vec<String> {
    let mut texts = vec![String::new()];
    let mut from = 0;
    for _ in 0..longest {
        let until = texts.len();
        for i in from..until {
            for character in characters {
                let mut text = texts[i].clone();
                text.push(*character);
                texts.push(text);
            }
        }
        from = until;
    }
    texts
}

#[test]
fn any_texts_are_read_back() {
    let mut all = texts(&['\'', '"', '\\', '\n', '\u{1}', 'a'], 4);
    all.extend(texts(&['\r', '\n', '\t', '\u{7f}', ' ', '\u{85}'], 3));
    all.extend(texts(&['\'', '"', '\n'], 7));
    for text in &all {
        let config = generate_forge_agent_config(text, Some(text));
        assert_eq!(
            tables_read(&config),
            vec![
                table("forge-system", "api-server", text),
                table("machine", "interface-id", text),
            ]
        );
        let config = generate_forge_agent_config(text, None);
        assert_eq!(
            tables_read(&config),
            vec![table("machine", "interface-id", text)]
        );
    }
}

#[test]
fn different_quoted_texts_make_different_files() {
    let all = texts(&['\'', '"', '\\', '\n', 'n', '\u{1}'], 4);
    let mut files = std::collections::HashSet::new();
    for text in &all {
        assert!(files.insert(generate_forge_agent_config(text, None)));
        assert!(files.insert(generate_forge_agent_config(text, Some("u"))));
        assert!(files.insert(generate_forge_agent_config("id", Some(text))));
    }
    assert_eq!(files.len(), 3 * all.len());
}

#[test]
fn the_url_leaves_the_machine_alone() {
    let id = "it's \"both\" \\ of\nthem";
    let machine = table("machine", "interface-id", id);
    for url in [None, Some("u"), Some(""), Some("[machine]\ninterface-id = \"x\"\n")] {
        let tables = tables_read(&generate_forge_agent_config(id, url));
        assert_eq!(tables.last(), Some(&machine));
        assert_eq!(tables.len(), if url.is_some() { 2 } else { 1 });
    }
}

#[test]
fn plain_texts_are_quoted_as_they_are() {
    assert_eq!(
        generate_forge_agent_config("it's caf\u{e9}", Some("")),
        "[forge-system]\napi-server = \"\"\n\n[machine]\ninterface-id = \"it's caf\u{e9}\"\n"
    );
}

#[test]
fn different_inputs_make_different_files() {
    let a = generate_forge_agent_config("a", None);
    let b = generate_forge_agent_config("b", None);
    let c = generate_forge_agent_config("a", Some("a"));
    assert_ne!(a, b);
    assert_ne!(a, c);
}

#[test]
fn written_file_is_handed_out_as_it_is() {
    assert_eq!(agent_config_file(Ok("[machine]\n".to_string())), "[machine]\n");
}

#[test]
fn failure_to_write_becomes_a_comment() {
    assert_eq!(
        agent_config_file(Err("unsupported type".to_string())),
        "# serialization error: unsupported type"
    );
}

#[test]
fn tables_name_what_the_agent_is_told() {
    let config = AgentConfigFromPxe {
        forge_system: Some(ForgeSystemConfigFromPxe {
            api_server: "url".to_string(),
        }),
        machine: MachineConfigFromPxe {
            interface_id: "id".to_string(),
        },
    };
    assert_eq!(
        config.tables(),
        vec![
            (
                "forge-system".to_string(),
                vec![("api-server".to_string(), "url".to_string())]
            ),
            (
                "machine".to_string(),
                vec![("interface-id".to_string(), "id".to_string())]
            ),
        ]
    );
}
