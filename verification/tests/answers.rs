use pxe_cloud_init::discovery::{
    bmc_fw_update_template, custom_cloud_init_directory, discovery_user_data, user_data_handler,
    Discovery, Surroundings, DEFAULT_NUM_OF_VFS,
};
use pxe_cloud_init::listing::DirectoryEntry;
use pxe_cloud_init::machine::{
    CloudInitInstructions, CloudInitMetaData, DiscoveryInstructions, Domain, Machine,
    MachineInterface, PxeDomain, RuntimeConfig,
};
use pxe_cloud_init::reply::{generate_generic_error, meta_data, vendor_data, Fault, Reply};
use pxe_cloud_init::router::{get_router, Route};
use pxe_cloud_init::template::TemplateResponse;
use pxe_cloud_init::user_data::{is_discovery_os, user_data, UserDataStep};

const INTERFACE_ID: &str = "91609f10-c91d-470d-a260-6293ea0c1234";

fn text(value: &str) -> Option<String> {
    Some(value.to_string())
}

fn unknown_machine() -> Machine {
    Machine {
        instructions: CloudInitInstructions {
            custom_cloud_init: None,
            discovery_instructions: None,
            metadata: None,
            api_url_override: None,
            pxe_url_override: None,
        },
    }
}

fn interface(id: Option<String>) -> MachineInterface {
    MachineInterface {
        id,
        mac_address: "00:11:22:33:44:55".to_string(),
    }
}

fn metadata() -> CloudInitMetaData {
    CloudInitMetaData {
        instance_id: "i-1".to_string(),
        cloud_name: "forge".to_string(),
        platform: "bare-metal".to_string(),
    }
}

fn named_domain() -> PxeDomain {
    PxeDomain {
        domain: Some(Domain::NewDomain {
            name: "test-host".to_string(),
        }),
    }
}

fn instructions() -> DiscoveryInstructions {
    DiscoveryInstructions {
        machine_interface: Some(interface(text(INTERFACE_ID))),
        domain: Some(named_domain()),
        hbn_reps: text("reps"),
        hbn_sfs: text("sfs"),
        num_of_vfs: Some(3),
        vf_intercept_bridge_name: text("br-vf"),
        host_intercept_bridge_name: text("br-host"),
        host_intercept_bridge_port: text("p0"),
        vf_intercept_bridge_port: text("p1"),
        vf_intercept_bridge_sf: text("sf4"),
    }
}

fn bare_discovery() -> Discovery {
    Discovery {
        machine_interface_id: INTERFACE_ID.to_string(),
        machine_interface: interface(text(INTERFACE_ID)),
        domain: PxeDomain { domain: None },
        hbn_reps: None,
        hbn_sfs: None,
        num_of_vfs: None,
        vf_intercept_bridge_name: None,
        host_intercept_bridge_name: None,
        host_intercept_bridge_port: None,
        vf_intercept_bridge_port: None,
        vf_intercept_bridge_sf: None,
        api_url_override: None,
        pxe_url_override: None,
    }
}

fn config() -> RuntimeConfig {
    RuntimeConfig {
        client_facing_api_url: "https://carbide-api.forge".to_string(),
        pxe_url: "http://carbide-pxe.forge".to_string(),
    }
}

fn nothing_around() -> Surroundings {
    Surroundings {
        bmc_fw_update: None,
        seconds_since_epoch: None,
        custom_cloud_init_web_root: None,
        custom_cloud_init_files: None,
    }
}

fn entries(response: TemplateResponse) -> Vec<(String, String)> {
    let mut entries = response.template_data.into_entries();
    entries.sort();
    entries
}

fn pairs(expected: &[(&str, &str)]) -> Vec<(String, String)> {
    expected
        .iter()
        .map(|(key, value)| (key.to_string(), value.to_string()))
        .collect()
}

fn answer(step: UserDataStep) -> Reply {
    match step {
        UserDataStep::Answer(reply) => reply,
        UserDataStep::Discover(_) => panic!("no answer"),
    }
}

fn discovery(step: UserDataStep) -> Discovery {
    match step {
        UserDataStep::Answer(_) => panic!("no discovery"),
        UserDataStep::Discover(discovery) => discovery,
    }
}

#[test]
fn custom_cloud_init_comes_first() {
    let mut machine = unknown_machine();
    machine.instructions.custom_cloud_init = text("#cloud-config");
    machine.instructions.discovery_instructions = Some(instructions());
    machine.instructions.metadata = Some(metadata());
    assert!(!is_discovery_os(&machine, true));
    let reply = answer(user_data(machine, true));
    assert!(reply.fault.is_none());
    assert_eq!(reply.response.template_key, "user-data-assigned");
    assert_eq!(entries(reply.response), pairs(&[("user_data", "#cloud-config")]));
}

#[test]
fn an_instance_without_user_data_gets_an_empty_one() {
    let mut machine = unknown_machine();
    machine.instructions.metadata = Some(metadata());
    assert!(!is_discovery_os(&machine, false));
    let reply = answer(user_data(machine, false));
    assert!(reply.fault.is_none());
    assert_eq!(reply.response.template_key, "user-data-assigned");
    assert_eq!(entries(reply.response), pairs(&[("user_data", "{}")]));
    let reply = answer(user_data(unknown_machine(), true));
    assert_eq!(entries(reply.response), pairs(&[("user_data", "{}")]));
}

#[test]
fn the_discovery_os_is_recognised() {
    let mut machine = unknown_machine();
    assert!(!is_discovery_os(&machine, true));
    machine.instructions.metadata = Some(metadata());
    assert!(is_discovery_os(&machine, true));
    assert!(!is_discovery_os(&machine, false));
}

fn assert_refused(reply: Reply) {
    assert!(reply.fault.is_some());
    assert_eq!(reply.response.template_key, "error");
    assert_eq!(
        entries(reply.response),
        pairs(&[("error", "An error occurred while rendering the request")])
    );
}

#[test]
fn a_missing_interface_id_is_refused() {
    let mut machine = unknown_machine();
    let mut discovery_instructions = instructions();
    discovery_instructions.machine_interface = Some(interface(None));
    machine.instructions.discovery_instructions = Some(discovery_instructions);
    let reply = answer(user_data(machine, false));
    assert!(matches!(&reply.fault, Some(Fault::InterfaceIdMissing(i)) if i.id.is_none()));
    assert_refused(reply);
}

#[test]
fn a_missing_interface_or_domain_is_refused() {
    let mut machine = unknown_machine();
    let mut discovery_instructions = instructions();
    discovery_instructions.machine_interface = None;
    machine.instructions.discovery_instructions = Some(discovery_instructions);
    let reply = answer(user_data(machine, false));
    assert!(matches!(
        &reply.fault,
        Some(Fault::InterfaceOrDomainMissing(None, Some(_)))
    ));
    assert_refused(reply);

    let mut machine = unknown_machine();
    let mut discovery_instructions = instructions();
    discovery_instructions.domain = None;
    machine.instructions.discovery_instructions = Some(discovery_instructions);
    let reply = answer(user_data(machine, false));
    assert!(matches!(
        &reply.fault,
        Some(Fault::InterfaceOrDomainMissing(Some(_), None))
    ));
    assert_refused(reply);
}

#[test]
fn generic_error_tells_nothing() {
    let response = generate_generic_error();
    assert_eq!(response.template_key, "error");
    assert_eq!(
        entries(response),
        pairs(&[("error", "An error occurred while rendering the request")])
    );
}

#[test]
fn a_dpu_is_discovered() {
    let mut machine = unknown_machine();
    machine.instructions.discovery_instructions = Some(instructions());
    machine.instructions.api_url_override = text("https://10.99.0.1:1079");
    machine.instructions.pxe_url_override = text("http://10.99.0.1:8080");
    let discovered = discovery(user_data(machine, false));
    assert_eq!(discovered.machine_interface_id, INTERFACE_ID);
    assert_eq!(discovered.num_of_vfs, Some(3));
    assert_eq!(discovered.api_url_override, text("https://10.99.0.1:1079"));

    let around = Surroundings {
        bmc_fw_update: text("update"),
        seconds_since_epoch: Some(1731675600),
        custom_cloud_init_web_root: text("/custom/"),
        custom_cloud_init_files: Some(vec![DirectoryEntry {
            is_file: true,
            name: text("10-a.cfg"),
        }]),
    };
    let response = discovery_user_data(discovered, config(), around, "[machine]\n");
    assert_eq!(response.template_key, "user-data");
    let data = response.template_data;
    let downloads = data.get("custom_cloud_init_downloads").unwrap().clone();
    // Custom cloud-init comes from the server's own URL.
    assert!(downloads.contains("10-a.cfg http://carbide-pxe.forge/custom/10-a.cfg\n"));
    let execute = data.get("custom_cloud_init_execute").unwrap().clone();
    assert!(execute.starts_with("# --- Start Cloud-Init Snippet Execution ---\n"));
    let response = TemplateResponse {
        template_key: response.template_key,
        template_data: data,
    };
    assert_eq!(
        entries(response),
        pairs(&[
            ("api_url", "https://10.99.0.1:1079"),
            ("custom_cloud_init_downloads", downloads.as_str()),
            ("custom_cloud_init_execute", execute.as_str()),
            ("forge_agent_config_b64", "W21hY2hpbmVdCg=="),
            ("forge_bmc_fw_update", "update"),
            ("forge_hbn_reps", "reps"),
            ("forge_hbn_sfs", "sfs"),
            ("forge_host_intercept_bridge_name", "br-host"),
            ("forge_host_intercept_bridge_port", "p0"),
            ("forge_host_intercept_hbn_port", "patch-hbn-p0"),
            ("forge_vf_intercept_bridge_name", "br-vf"),
            ("forge_vf_intercept_bridge_port", "p1"),
            ("forge_vf_intercept_bridge_sf", "sf4"),
            ("forge_vf_intercept_bridge_sf_hbn_bridge_representor", "sf4_if_r"),
            ("forge_vf_intercept_bridge_sf_representor", "sf4_r"),
            ("forge_vf_intercept_hbn_port", "patch-hbn-p1"),
            ("hostname", "test-host"),
            ("interface_id", INTERFACE_ID),
            ("mac_address", "00:11:22:33:44:55"),
            ("num_of_vfs", "3"),
            ("pxe_url", "http://10.99.0.1:8080"),
            ("seconds_since_epoch", "1731675600"),
        ])
    );
}

#[test]
fn what_is_not_known_is_left_out() {
    let response = user_data_handler(bare_discovery(), config(), nothing_around());
    assert_eq!(response.template_key, "user-data");
    // The base64 of "[machine]\ninterface-id = \"91609f10-c91d-470d-a260-6293ea0c1234\"\n".
    let agent_config = "W21hY2hpbmVdCmludGVyZmFjZS1pZCA9ICI5MTYwOWYxMC1jOTFkLTQ3MGQtYTI2MC02MjkzZWEwYzEyMzQiCg==";
    assert_eq!(
        entries(response),
        pairs(&[
            ("api_url", "https://carbide-api.forge"),
            ("custom_cloud_init_downloads", ""),
            ("custom_cloud_init_execute", ""),
            ("forge_agent_config_b64", agent_config),
            ("forge_bmc_fw_update", ""),
            ("interface_id", INTERFACE_ID),
            ("mac_address", "00:11:22:33:44:55"),
            ("num_of_vfs", "16"),
            ("pxe_url", "http://carbide-pxe.forge"),
            ("seconds_since_epoch", "0"),
        ])
    );
    assert_eq!(DEFAULT_NUM_OF_VFS, 16);
}

#[test]
fn the_agent_is_told_the_overriding_url() {
    let mut discovered = bare_discovery();
    discovered.machine_interface_id = "id".to_string();
    discovered.api_url_override = text("u");
    discovered.domain = PxeDomain {
        domain: Some(Domain::LegacyDomain {
            name: "legacy-host".to_string(),
        }),
    };
    let data = user_data_handler(discovered, config(), nothing_around()).template_data;
    assert_eq!(data.get("api_url").unwrap(), "u");
    assert_eq!(data.get("hostname").unwrap(), "legacy-host");
    // The base64 of "[forge-system]\napi-server = \"u\"\n\n[machine]\ninterface-id = \"id\"\n".
    assert_eq!(
        data.get("forge_agent_config_b64").unwrap(),
        "W2ZvcmdlLXN5c3RlbV0KYXBpLXNlcnZlciA9ICJ1IgoKW21hY2hpbmVdCmludGVyZmFjZS1pZCA9ICJpZCIK"
    );
}

#[test]
fn the_encoded_file_depends_on_the_file_alone() {
    let encoded = |response: TemplateResponse| {
        response
            .template_data
            .get("forge_agent_config_b64")
            .unwrap()
            .clone()
    };
    let other_discovery = || {
        let mut discovery = bare_discovery();
        discovery.machine_interface.mac_address = "66:77:88:99:aa:bb".to_string();
        discovery.domain = named_domain();
        discovery.num_of_vfs = Some(1);
        discovery.pxe_url_override = text("http://10.99.0.1:8080");
        discovery
    };
    let other_config = || RuntimeConfig {
        client_facing_api_url: "https://elsewhere".to_string(),
        pxe_url: "http://elsewhere".to_string(),
    };
    let other_around = || Surroundings {
        bmc_fw_update: text("update"),
        seconds_since_epoch: Some(1),
        custom_cloud_init_web_root: text("/custom/"),
        custom_cloud_init_files: Some(vec![]),
    };
    let file = encoded(discovery_user_data(
        bare_discovery(),
        config(),
        nothing_around(),
        "a",
    ));
    let same = encoded(discovery_user_data(
        other_discovery(),
        other_config(),
        other_around(),
        "a",
    ));
    let different = encoded(discovery_user_data(
        other_discovery(),
        other_config(),
        other_around(),
        "b",
    ));
    assert_eq!(file, same);
    assert_ne!(file, different);

    // The same interface and URL make the same file; another of either does not.
    let file = encoded(user_data_handler(bare_discovery(), config(), nothing_around()));
    assert_eq!(
        encoded(user_data_handler(other_discovery(), other_config(), other_around())),
        file
    );
    let mut quoted = other_discovery();
    quoted.machine_interface_id.push('"');
    assert_ne!(encoded(user_data_handler(quoted, other_config(), other_around())), file);
    let mut directed = other_discovery();
    directed.api_url_override = text("\n");
    assert_ne!(encoded(user_data_handler(directed, other_config(), other_around())), file);
}

#[test]
fn agent_config_is_padded_base64_of_utf8() {
    for (file, encoded) in [
        ("", ""),
        ("f", "Zg=="),
        ("fo", "Zm8="),
        ("foo", "Zm9v"),
        ("foob", "Zm9vYg=="),
        ("\u{ff}\u{fffd}", "w7/vv70="),
        ("~~~>>>", "fn5+Pj4+"),
    ] {
        let data =
            discovery_user_data(bare_discovery(), config(), nothing_around(), file).template_data;
        assert_eq!(data.get("forge_agent_config_b64").unwrap(), encoded);
    }
}

#[test]
fn the_time_shows_in_one_text_only() {
    let mut later = nothing_around();
    later.seconds_since_epoch = Some(5);
    let now = entries(user_data_handler(bare_discovery(), config(), nothing_around()));
    let then = entries(user_data_handler(bare_discovery(), config(), later));
    assert_eq!(now.len(), then.len());
    for (a, b) in now.iter().zip(then.iter()) {
        assert_eq!(a.0, b.0);
        assert_eq!(a.1 == b.1, a.0 != "seconds_since_epoch");
    }
}

#[test]
fn default_paths_of_custom_cloud_init() {
    assert_eq!(
        custom_cloud_init_directory(None),
        "/forge-boot-artifacts/blobs/internal/cloud-init.d/dpu/"
    );
    assert_eq!(custom_cloud_init_directory(text("/x")), "/x");
    let mut around = nothing_around();
    around.custom_cloud_init_files = Some(vec![DirectoryEntry {
        is_file: true,
        name: text("a"),
    }]);
    let data = user_data_handler(bare_discovery(), config(), around).template_data;
    assert!(data
        .get("custom_cloud_init_downloads")
        .unwrap()
        .contains(" http://carbide-pxe.forge/public/blobs/internal/cloud-init.d/dpu/a\n"));
}

#[test]
fn the_firmware_update_is_rendered_from_nothing() {
    let template = bmc_fw_update_template();
    assert_eq!(template.template_key, "bmc_fw_update");
    assert_eq!(entries(template), vec![]);
}

#[test]
fn metadata_is_told() {
    let mut machine = unknown_machine();
    machine.instructions.metadata = Some(metadata());
    let reply = meta_data(machine);
    assert!(reply.fault.is_none());
    assert_eq!(reply.response.template_key, "meta-data");
    assert_eq!(
        entries(reply.response),
        pairs(&[
            ("cloud_name", "forge"),
            ("instance_id", "i-1"),
            ("platform", "bare-metal"),
        ])
    );
}

#[test]
fn missing_metadata_is_refused() {
    let reply = meta_data(unknown_machine());
    assert!(matches!(&reply.fault, Some(Fault::MetadataMissing(_))));
    assert_refused(reply);
}

#[test]
fn vendor_data_is_the_same_for_all() {
    let response = vendor_data();
    assert_eq!(response.template_key, "printcontext");
    assert_eq!(entries(response), vec![]);
}

#[test]
fn routes_stand_below_the_prefix() {
    let router = get_router("/api/v0/cloud-init");
    assert_eq!(router.len(), 3);
    assert_eq!(router[0].path, "/api/v0/cloud-init/user-data");
    assert_eq!(router[0].route, Route::UserData);
    assert_eq!(router[1].path, "/api/v0/cloud-init/meta-data");
    assert_eq!(router[1].route, Route::MetaData);
    assert_eq!(router[2].path, "/api/v0/cloud-init/vendor-data");
    assert_eq!(router[2].route, Route::VendorData);
    assert_eq!(get_router("")[0].path, "/user-data");
}

#[test]
fn a_pxe_url_override_changes_one_text() {
    let files = || {
        let mut around = nothing_around();
        around.custom_cloud_init_files = Some(vec![DirectoryEntry {
            is_file: true,
            name: text("a"),
        }]);
        around
    };
    let mut overridden = bare_discovery();
    overridden.pxe_url_override = text("http://10.99.0.1:8080");
    let common = entries(user_data_handler(bare_discovery(), config(), files()));
    let own = entries(user_data_handler(overridden, config(), files()));
    assert_eq!(common.len(), own.len());
    for (a, b) in common.iter().zip(own.iter()) {
        assert_eq!(a.0, b.0);
        assert_eq!(a.1 == b.1, a.0 != "pxe_url");
    }
}

#[test]
fn the_form_of_the_domain_makes_no_difference() {
    let mut legacy = bare_discovery();
    legacy.domain = PxeDomain {
        domain: Some(Domain::LegacyDomain {
            name: "test-host".to_string(),
        }),
    };
    let mut new = bare_discovery();
    new.domain = named_domain();
    assert_eq!(
        entries(user_data_handler(legacy, config(), nothing_around())),
        entries(user_data_handler(new, config(), nothing_around()))
    );
}
