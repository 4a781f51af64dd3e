//! The user data of a DPU that is being taken into service.

use crate::agent_config::{
    agent_tables, generate_forge_agent_config, is_plain, law_agent_config_is_read_one_way,
    plain_agent_config, reads_as, toml_text,
};
use crate::encoding::{base64_text, encode_base64, law_base64_decides_bytes};
use crate::lines::stands_alone;
use crate::listing::{
    cloud_init_urls, file_names, get_cloud_init_urls, law_every_file_is_listed,
    law_only_files_are_listed, DirectoryEntry,
};
use crate::machine::{Domain, MachineInterface, PxeDomain, RuntimeConfig};
use crate::names::law_sorted_names;
use crate::snippets::{
    download_block, downloads_part, execute_part, execute_script, indented_block,
    law_every_file_is_downloaded, law_parts_are_filled_together, snippet_blocks,
};
use crate::template::{ResponseView, TemplateData, TemplateResponse};
use crate::text::{
    decimal, decimal_text, decimal_value, law_decimal_is_digits, law_decimal_reads_back, trimmed,
};
use vstd::prelude::*;
use vstd::utf8::{encode_utf8, encode_utf8_decode_utf8};

verus! {

/// The number of virtual functions of a DPU for which none is configured.
pub const DEFAULT_NUM_OF_VFS: u32 = 16;

/// A DPU that is being taken into service, and what is known of it.
#[derive(Debug)]
pub struct Discovery {
    pub machine_interface_id: String,
    pub machine_interface: MachineInterface,
    pub domain: PxeDomain,
    pub hbn_reps: Option<String>,
    pub hbn_sfs: Option<String>,
    pub num_of_vfs: Option<u32>,
    pub vf_intercept_bridge_name: Option<String>,
    pub host_intercept_bridge_name: Option<String>,
    pub host_intercept_bridge_port: Option<String>,
    pub vf_intercept_bridge_port: Option<String>,
    pub vf_intercept_bridge_sf: Option<String>,
    pub api_url_override: Option<String>,
    pub pxe_url_override: Option<String>,
}

/// What the server finds around it when the user data is asked for.
#[derive(Debug)]
pub struct Surroundings {
    /// The rendered template of the firmware update, where it could be rendered.
    pub bmc_fw_update: Option<String>,
    /// The seconds since the epoch, unless the clock stands before it.
    pub seconds_since_epoch: Option<u64>,
    /// The path below which the server offers custom cloud-init, where one is set.
    pub custom_cloud_init_web_root: Option<String>,
    /// The directory of custom cloud-init, where it could be listed.
    pub custom_cloud_init_files: Option<Vec<DirectoryEntry>>,
}

/// The template of the firmware update, which is rendered from nothing.
pub open spec fn bmc_fw_update_rendering() -> ResponseView {
    ResponseView { template_key: "bmc_fw_update"@, template_data: Map::empty() }
}

/// The template that the server renders before it answers a DPU: the firmware update.
pub fn bmc_fw_update_template() -> (template: TemplateResponse)
    ensures
        template@ == bmc_fw_update_rendering(),
{
    TemplateResponse {
        template_key: "bmc_fw_update".to_string(),
        template_data: TemplateData::new(),
    }
}

/// The directory that is listed for custom cloud-init.
pub open spec fn includes_directory(configured: Option<Seq<char>>) -> Seq<char> {
    match configured {
        Some(directory) => directory,
        None => "/forge-boot-artifacts/blobs/internal/cloud-init.d/dpu/"@,
    }
}

/// The directory that is listed for custom cloud-init: the configured one, or the default.
pub fn custom_cloud_init_directory(configured: Option<String>) -> (directory: String)
    ensures
        directory@ == includes_directory(text_of(configured)),
        directory@ == match configured {
            Some(directory) => directory@,
            None => "/forge-boot-artifacts/blobs/internal/cloud-init.d/dpu/"@,
        },
{
    or_else(configured, "/forge-boot-artifacts/blobs/internal/cloud-init.d/dpu/".to_string())
}

/// The path below which the server offers custom cloud-init.
pub open spec fn web_root(configured: Option<Seq<char>>) -> Seq<char> {
    match configured {
        Some(root) => root,
        None => "public/blobs/internal/cloud-init.d/dpu/"@,
    }
}

/// The text that is there, if any.
pub open spec fn text_of(text: Option<String>) -> Option<Seq<char>> {
    match text {
        Some(text) => Some(text@),
        None => None,
    }
}

/// `prefix` and `suffix` around the text that is there, if any.
pub open spec fn affixed(prefix: Seq<char>, text: Option<String>, suffix: Seq<char>) -> Option<Seq<char>> {
    match text {
        Some(text) => Some(prefix + text@ + suffix),
        None => None,
    }
}

/// The text that is there, or else the other one.
pub open spec fn text_or(text: Option<String>, other: Seq<char>) -> Seq<char> {
    match text {
        Some(text) => text@,
        None => other,
    }
}

/// The files of custom cloud-init with their URLs; none where the directory could not be listed.
/// They are always fetched from the server's own URL, whatever the machine is told to use.
pub open spec fn offered_files(config: RuntimeConfig, around: Surroundings) -> Seq<
    (Seq<char>, Seq<char>),
> {
    match around.custom_cloud_init_files {
        Some(entries) => cloud_init_urls(
            entries@,
            config.pxe_url@,
            web_root(text_of(around.custom_cloud_init_web_root)),
        ),
        None => Seq::empty(),
    }
}

/// What the user data holds under a key, for the given configuration file of the agent.
pub open spec fn discovery_value(
    discovery: Discovery,
    config: RuntimeConfig,
    around: Surroundings,
    agent_config: Seq<char>,
    key: Seq<char>,
) -> Option<Seq<char>> {
    if key == "mac_address"@ {
        Some(discovery.machine_interface.mac_address@)
    } else if key == "hostname"@ {
        discovery.domain.name()
    } else if key == "interface_id"@ {
        Some(discovery.machine_interface_id@)
    } else if key == "api_url"@ {
        Some(text_or(discovery.api_url_override, config.client_facing_api_url@))
    } else if key == "pxe_url"@ {
        Some(text_or(discovery.pxe_url_override, config.pxe_url@))
    } else if key == "forge_agent_config_b64"@ {
        Some(base64_text(encode_utf8(agent_config)))
    } else if key == "forge_bmc_fw_update"@ {
        Some(text_or(around.bmc_fw_update, ""@))
    } else if key == "seconds_since_epoch"@ {
        Some(
            decimal(
                match around.seconds_since_epoch {
                    Some(seconds) => seconds as nat,
                    None => 0,
                },
            ),
        )
    } else if key == "forge_hbn_reps"@ {
        text_of(discovery.hbn_reps)
    } else if key == "forge_hbn_sfs"@ {
        text_of(discovery.hbn_sfs)
    } else if key == "num_of_vfs"@ {
        Some(
            decimal(
                match discovery.num_of_vfs {
                    Some(number) => number as nat,
                    None => DEFAULT_NUM_OF_VFS as nat,
                },
            ),
        )
    } else if key == "forge_vf_intercept_bridge_name"@ {
        text_of(discovery.vf_intercept_bridge_name)
    } else if key == "forge_host_intercept_bridge_name"@ {
        text_of(discovery.host_intercept_bridge_name)
    } else if key == "forge_host_intercept_hbn_port"@ {
        affixed("patch-hbn-"@, discovery.host_intercept_bridge_port, ""@)
    } else if key == "forge_host_intercept_bridge_port"@ {
        text_of(discovery.host_intercept_bridge_port)
    } else if key == "forge_vf_intercept_hbn_port"@ {
        affixed("patch-hbn-"@, discovery.vf_intercept_bridge_port, ""@)
    } else if key == "forge_vf_intercept_bridge_port"@ {
        text_of(discovery.vf_intercept_bridge_port)
    } else if key == "forge_vf_intercept_bridge_sf_representor"@ {
        affixed(""@, discovery.vf_intercept_bridge_sf, "_r"@)
    } else if key == "forge_vf_intercept_bridge_sf_hbn_bridge_representor"@ {
        affixed(""@, discovery.vf_intercept_bridge_sf, "_if_r"@)
    } else if key == "forge_vf_intercept_bridge_sf"@ {
        text_of(discovery.vf_intercept_bridge_sf)
    } else if key == "custom_cloud_init_downloads"@ {
        Some(downloads_part(offered_files(config, around)))
    } else if key == "custom_cloud_init_execute"@ {
        Some(execute_part(offered_files(config, around)))
    } else {
        None
    }
}

/// The user data of a DPU that is being taken into service, for the given configuration file of
/// the agent.
pub open spec fn discovery_response(
    discovery: Discovery,
    config: RuntimeConfig,
    around: Surroundings,
    agent_config: Seq<char>,
) -> ResponseView {
    ResponseView {
        template_key: "user-data"@,
        template_data: Map::new(
            |key: Seq<char>|
                discovery_value(discovery, config, around, agent_config, key) is Some,
            |key: Seq<char>|
                discovery_value(discovery, config, around, agent_config, key)->Some_0,
        ),
    }
}

/// The map with the text under the key, where there is one.
spec fn put(
    map: Map<Seq<char>, Seq<char>>,
    key: Seq<char>,
    value: Option<Seq<char>>,
) -> Map<Seq<char>, Seq<char>> {
    match value {
        Some(text) => map.insert(key, text),
        None => map,
    }
}

/// The rows of a table, put one after the other, where they have a text.
spec fn put_rows(rows: Seq<(Seq<char>, Option<Seq<char>>)>) -> Map<Seq<char>, Seq<char>>
    decreases rows.len(),
{
    if rows.len() == 0 {
        Map::empty()
    } else {
        put(put_rows(rows.drop_last()), rows.last().0, rows.last().1)
    }
}

/// Where each row holds what its key stands for, so does the map.
proof fn lemma_put_rows(
    rows: Seq<(Seq<char>, Option<Seq<char>>)>,
    value: spec_fn(Seq<char>) -> Option<Seq<char>>,
)
    requires
        forall|i: int| 0 <= i < rows.len() ==> (#[trigger] rows[i]).1 == value(rows[i].0),
    ensures
        forall|key: Seq<char>| #[trigger]
            put_rows(rows).contains_key(key) <==> value(key) is Some && exists|i: int|
                0 <= i < rows.len() && (#[trigger] rows[i]).0 == key,
        forall|key: Seq<char>| #[trigger]
            put_rows(rows).contains_key(key) ==> value(key) == Some(put_rows(rows)[key]),
    decreases rows.len(),
{
    if rows.len() > 0 {
        let rest = rows.drop_last();
        let last = rows.len() - 1;
        lemma_put_rows(rest, value);
        assert(rows[last].1 == value(rows[last].0));
        let before = put_rows(rest);
        assert(put_rows(rows) == put(before, rows[last].0, rows[last].1));
        assert forall|key: Seq<char>| #[trigger]
            put_rows(rows).contains_key(key) <==> value(key) is Some && exists|i: int|
                0 <= i < rows.len() && (#[trigger] rows[i]).0 == key by {
            if exists|i: int| 0 <= i < rows.len() && (#[trigger] rows[i]).0 == key {
                let i = choose|i: int| 0 <= i < rows.len() && (#[trigger] rows[i]).0 == key;
                if i < last {
                    assert(rest[i].0 == key);
                    assert(before.contains_key(key) <==> value(key) is Some);
                }
            }
            if before.contains_key(key) {
                let i = choose|i: int| 0 <= i < rest.len() && (#[trigger] rest[i]).0 == key;
                assert(rows[i].0 == key);
            }
        }
        assert forall|key: Seq<char>| #[trigger]
            put_rows(rows).contains_key(key) implies value(key) == Some(put_rows(rows)[key]) by {
            if key != rows[last].0 {
                assert(before.contains_key(key));
            }
        }
    }
}

/// The keys of the user data are all different.
proof fn lemma_keys_are_distinct()
    ensures
        "mac_address"@.len() == 11,
        "hostname"@.len() == 8,
        "interface_id"@.len() == 12,
        "api_url"@.len() == 7,
        "pxe_url"@.len() == 7,
        "api_url"@ != "pxe_url"@,
        "forge_agent_config_b64"@.len() == 22,
        "forge_bmc_fw_update"@.len() == 19,
        "seconds_since_epoch"@.len() == 19,
        "forge_bmc_fw_update"@ != "seconds_since_epoch"@,
        "forge_hbn_reps"@.len() == 14,
        "forge_hbn_sfs"@.len() == 13,
        "num_of_vfs"@.len() == 10,
        "forge_vf_intercept_bridge_name"@.len() == 30,
        "forge_vf_intercept_bridge_port"@.len() == 30,
        "forge_vf_intercept_bridge_name"@ != "forge_vf_intercept_bridge_port"@,
        "forge_host_intercept_bridge_name"@.len() == 32,
        "forge_host_intercept_bridge_port"@.len() == 32,
        "forge_host_intercept_bridge_name"@ != "forge_host_intercept_bridge_port"@,
        "forge_host_intercept_hbn_port"@.len() == 29,
        "forge_vf_intercept_hbn_port"@.len() == 27,
        "custom_cloud_init_downloads"@.len() == 27,
        "forge_vf_intercept_hbn_port"@ != "custom_cloud_init_downloads"@,
        "forge_vf_intercept_bridge_sf_representor"@.len() == 40,
        "forge_vf_intercept_bridge_sf_hbn_bridge_representor"@.len() == 51,
        "forge_vf_intercept_bridge_sf"@.len() == 28,
        "custom_cloud_init_execute"@.len() == 25,
{
    reveal_strlit("mac_address");
    reveal_strlit("hostname");
    reveal_strlit("interface_id");
    reveal_strlit("api_url");
    reveal_strlit("pxe_url");
    reveal_strlit("forge_agent_config_b64");
    reveal_strlit("forge_bmc_fw_update");
    reveal_strlit("seconds_since_epoch");
    reveal_strlit("forge_hbn_reps");
    reveal_strlit("forge_hbn_sfs");
    reveal_strlit("num_of_vfs");
    reveal_strlit("forge_vf_intercept_bridge_name");
    reveal_strlit("forge_vf_intercept_bridge_port");
    reveal_strlit("forge_host_intercept_bridge_name");
    reveal_strlit("forge_host_intercept_bridge_port");
    reveal_strlit("forge_host_intercept_hbn_port");
    reveal_strlit("forge_vf_intercept_hbn_port");
    reveal_strlit("custom_cloud_init_downloads");
    reveal_strlit("forge_vf_intercept_bridge_sf_representor");
    reveal_strlit("forge_vf_intercept_bridge_sf_hbn_bridge_representor");
    reveal_strlit("forge_vf_intercept_bridge_sf");
    reveal_strlit("custom_cloud_init_execute");
    assert("api_url"@[0] != "pxe_url"@[0]);
    assert("forge_bmc_fw_update"@[0] != "seconds_since_epoch"@[0]);
    assert("forge_vf_intercept_bridge_name"@[29] != "forge_vf_intercept_bridge_port"@[29]);
    assert("forge_host_intercept_bridge_name"@[31] != "forge_host_intercept_bridge_port"@[31]);
    assert("forge_vf_intercept_hbn_port"@[0] != "custom_cloud_init_downloads"@[0]);
}

/// Puts the rows of a table that have a text.
fn fill(rows: Vec<(String, Option<String>)>) -> (data: TemplateData)
    ensures
        data@ == put_rows(rows.deep_view()),
{
    let ghost all = rows.deep_view();
    let mut data = TemplateData::new();
    let mut rest = rows;
    let ghost mut done: int = 0;
    while rest.len() > 0
        invariant
            0 <= done <= all.len(),
            rest.deep_view() == all.skip(done),
            data@ == put_rows(all.take(done)),
        decreases rest.len(),
    {
        let ghost before = rest.deep_view();
        let (key, value) = rest.remove(0);
        proof {
            assert(before.len() > 0);
            assert(before[0] == all[done]);
            assert(all.take(done + 1).drop_last() =~= all.take(done));
            assert(rest.deep_view() =~= before.remove(0));
            assert(before.remove(0) =~= all.skip(done + 1));
            done = done + 1;
        }
        match value {
            Some(text) => {
                data.insert(key, text);
            },
            None => {},
        }
    }
    proof {
        assert(all.take(done) =~= all);
    }
    data
}

/// Puts a prefix and a suffix around the text that is there, if any.
fn affix(prefix: &str, text: &Option<String>, suffix: &str) -> (result: Option<String>)
    ensures
        text_of(result) == affixed(prefix@, *text, suffix@),
{
    match text {
        Some(text) => {
            let mut result: String = prefix.to_string();
            result.append(text.as_str());
            result.append(suffix);
            Some(result)
        },
        None => None,
    }
}

/// The text that is there, or else the other one.
fn or_else(text: Option<String>, other: String) -> (result: String)
    ensures
        result@ == text_or(text, other@),
{
    match text {
        Some(text) => text,
        None => other,
    }
}

/// The name of a domain, whatever its form.
fn domain_name(domain: PxeDomain) -> (name: Option<String>)
    ensures
        text_of(name) == domain.name(),
{
    match domain.domain {
        Some(Domain::LegacyDomain { name }) => Some(name),
        Some(Domain::NewDomain { name }) => Some(name),
        None => None,
    }
}

/// The files of custom cloud-init with their URLs.
fn files_on_offer(
    config: &RuntimeConfig,
    entries: Option<Vec<DirectoryEntry>>,
    web_root: &str,
) -> (files: Vec<(String, String)>)
    ensures
        files.deep_view() == match entries {
            Some(entries) => cloud_init_urls(entries@, config.pxe_url@, web_root@),
            None => Seq::empty(),
        },
{
    let listing: Result<Vec<DirectoryEntry>, ()> = match entries {
        Some(entries) => Ok(entries),
        None => Err(()),
    };
    match get_cloud_init_urls(listing, config.pxe_url.as_str(), web_root) {
        Ok(files) => files,
        Err(_) => {
            let files: Vec<(String, String)> = Vec::new();
            proof {
                assert(files.deep_view() =~= Seq::empty());
            }
            files
        },
    }
}

/// Answers a DPU that is being taken into service, for the given configuration file of the agent.
pub fn discovery_user_data(
    discovery: Discovery,
    config: RuntimeConfig,
    around: Surroundings,
    agent_config: &str,
) -> (response: TemplateResponse)
    ensures
        response@ == discovery_response(discovery, config, around, agent_config@),
{
    let ghost value = |key: Seq<char>|
        discovery_value(discovery, config, around, agent_config@, key);
    let ghost on_offer = offered_files(config, around);
    let web_root: String = or_else(
        around.custom_cloud_init_web_root,
        "public/blobs/internal/cloud-init.d/dpu/".to_string(),
    );
    let files = files_on_offer(&config, around.custom_cloud_init_files, web_root.as_str());
    assert(files.deep_view() == on_offer);
    let blocks = snippet_blocks(&files);
    let seconds_since_epoch: u64 = match around.seconds_since_epoch {
        Some(seconds) => seconds,
        None => 0,
    };
    let num_of_vfs: u32 = match discovery.num_of_vfs {
        Some(number) => number,
        None => DEFAULT_NUM_OF_VFS,
    };
    // URL overrides are for external hosts (static-assignments segment).
    let api_url: String = or_else(discovery.api_url_override, config.client_facing_api_url);
    let pxe_url: String = or_else(discovery.pxe_url_override, config.pxe_url);
    let bmc_fw_update: String = or_else(around.bmc_fw_update, "".to_string());
    let hostname = domain_name(discovery.domain);
    let host_port = discovery.host_intercept_bridge_port;
    let vf_port = discovery.vf_intercept_bridge_port;
    let sf = discovery.vf_intercept_bridge_sf;
    let host_hbn_port = affix("patch-hbn-", &host_port, "");
    let vf_hbn_port = affix("patch-hbn-", &vf_port, "");
    let representor = affix("", &sf, "_r");
    let bridge_representor = affix("", &sf, "_if_r");
    let rows: Vec<(String, Option<String>)> = vec![
        ("mac_address".to_string(), Some(discovery.machine_interface.mac_address)),
        ("hostname".to_string(), hostname),
        ("interface_id".to_string(), Some(discovery.machine_interface_id)),
        ("api_url".to_string(), Some(api_url)),
        ("pxe_url".to_string(), Some(pxe_url)),
        ("forge_agent_config_b64".to_string(), Some(encode_base64(agent_config))),
        ("forge_bmc_fw_update".to_string(), Some(bmc_fw_update)),
        ("seconds_since_epoch".to_string(), Some(decimal_text(seconds_since_epoch))),
        ("forge_hbn_reps".to_string(), discovery.hbn_reps),
        ("forge_hbn_sfs".to_string(), discovery.hbn_sfs),
        ("num_of_vfs".to_string(), Some(decimal_text(num_of_vfs as u64))),
        ("forge_vf_intercept_bridge_name".to_string(), discovery.vf_intercept_bridge_name),
        ("forge_host_intercept_bridge_name".to_string(), discovery.host_intercept_bridge_name),
        ("forge_host_intercept_hbn_port".to_string(), host_hbn_port),
        ("forge_host_intercept_bridge_port".to_string(), host_port),
        ("forge_vf_intercept_hbn_port".to_string(), vf_hbn_port),
        ("forge_vf_intercept_bridge_port".to_string(), vf_port),
        ("forge_vf_intercept_bridge_sf_representor".to_string(), representor),
        ("forge_vf_intercept_bridge_sf_hbn_bridge_representor".to_string(), bridge_representor),
        ("forge_vf_intercept_bridge_sf".to_string(), sf),
        ("custom_cloud_init_downloads".to_string(), Some(blocks.downloads)),
        ("custom_cloud_init_execute".to_string(), Some(blocks.execute)),
    ];
    let ghost table = rows.deep_view();
    proof {
        lemma_keys_are_distinct();
        assert(forall|i: int| 0 <= i < table.len() ==> (#[trigger] table[i]).1 == value(table[i].0));
        lemma_put_rows(table, value);
        assert(table[0].0 == "mac_address"@);
        assert(table[1].0 == "hostname"@);
        assert(table[2].0 == "interface_id"@);
        assert(table[3].0 == "api_url"@);
        assert(table[4].0 == "pxe_url"@);
        assert(table[5].0 == "forge_agent_config_b64"@);
        assert(table[6].0 == "forge_bmc_fw_update"@);
        assert(table[7].0 == "seconds_since_epoch"@);
        assert(table[8].0 == "forge_hbn_reps"@);
        assert(table[9].0 == "forge_hbn_sfs"@);
        assert(table[10].0 == "num_of_vfs"@);
        assert(table[11].0 == "forge_vf_intercept_bridge_name"@);
        assert(table[12].0 == "forge_host_intercept_bridge_name"@);
        assert(table[13].0 == "forge_host_intercept_hbn_port"@);
        assert(table[14].0 == "forge_host_intercept_bridge_port"@);
        assert(table[15].0 == "forge_vf_intercept_hbn_port"@);
        assert(table[16].0 == "forge_vf_intercept_bridge_port"@);
        assert(table[17].0 == "forge_vf_intercept_bridge_sf_representor"@);
        assert(table[18].0 == "forge_vf_intercept_bridge_sf_hbn_bridge_representor"@);
        assert(table[19].0 == "forge_vf_intercept_bridge_sf"@);
        assert(table[20].0 == "custom_cloud_init_downloads"@);
        assert(table[21].0 == "custom_cloud_init_execute"@);
    }
    let context = fill(rows);
    proof {
        assert(context@ =~= discovery_response(discovery, config, around, agent_config@).template_data);
    }
    TemplateResponse { template_key: "user-data".to_string(), template_data: context }
}

/// Answers a DPU that is being taken into service.
pub fn user_data_handler(
    discovery: Discovery,
    config: RuntimeConfig,
    around: Surroundings,
) -> (response: TemplateResponse)
    ensures
        response@ == discovery_response(
            discovery,
            config,
            around,
            toml_text(
                agent_tables(discovery.machine_interface_id@, text_of(discovery.api_url_override)),
            ),
        ),
        reads_as(
            toml_text(
                agent_tables(discovery.machine_interface_id@, text_of(discovery.api_url_override)),
            ),
            discovery.machine_interface_id@,
            text_of(discovery.api_url_override),
        ),
        response@.template_data["forge_agent_config_b64"@] == base64_text(
            encode_utf8(
                toml_text(
                    agent_tables(
                        discovery.machine_interface_id@,
                        match discovery.api_url_override {
                            Some(url) => Some(url@),
                            None => None,
                        },
                    ),
                ),
            ),
        ),
        is_plain(discovery.machine_interface_id@) && (discovery.api_url_override matches Some(url)
            ==> is_plain(url@)) ==> response@ == discovery_response(
            discovery,
            config,
            around,
            plain_agent_config(
                discovery.machine_interface_id@,
                text_of(discovery.api_url_override),
            ),
        ),
{
    let agent_config = generate_forge_agent_config(
        discovery.machine_interface_id.as_str(),
        match &discovery.api_url_override {
            Some(url) => Some(url.as_str()),
            None => None,
        },
    );
    proof {
        law_files_are_told_whole(discovery, config, around, agent_config@);
    }
    discovery_user_data(discovery, config, around, agent_config.as_str())
}

/// Some keys are there for every DPU, whatever is known of it.
pub proof fn law_keys_that_are_always_there(
    discovery: Discovery,
    config: RuntimeConfig,
    around: Surroundings,
    agent_config: Seq<char>,
)
    ensures
        ({
            let data = discovery_response(discovery, config, around, agent_config).template_data;
            &&& data.contains_key("mac_address"@)
            &&& data.contains_key("interface_id"@)
            &&& data.contains_key("api_url"@)
            &&& data.contains_key("pxe_url"@)
            &&& data.contains_key("forge_agent_config_b64"@)
            &&& data.contains_key("forge_bmc_fw_update"@)
            &&& data.contains_key("seconds_since_epoch"@)
            &&& data.contains_key("num_of_vfs"@)
            &&& data.contains_key("custom_cloud_init_downloads"@)
            &&& data.contains_key("custom_cloud_init_execute"@)
        }),
{
    lemma_keys_are_distinct();
}

/// Where the machine is given an API endpoint of its own, the template and the agent are both told
/// that one. Where it is not, the template is told the common one and the agent keeps its default.
pub proof fn law_api_url_is_told_alike(
    discovery: Discovery,
    config: RuntimeConfig,
    around: Surroundings,
    agent_config: Seq<char>,
)
    ensures
        ({
            let data = discovery_response(discovery, config, around, agent_config).template_data;
            let tables = agent_tables(
                discovery.machine_interface_id@,
                text_of(discovery.api_url_override),
            );
            match discovery.api_url_override {
                Some(url) => {
                    &&& data["api_url"@] == url@
                    &&& tables.contains(("forge-system"@, seq![("api-server"@, url@)]))
                },
                None => {
                    &&& data["api_url"@] == config.client_facing_api_url@
                    &&& forall|i: int| 0 <= i < tables.len() ==> (#[trigger] tables[i]).0 != "forge-system"@
                },
            }
        }),
{
    lemma_keys_are_distinct();
    reveal_strlit("machine");
    reveal_strlit("forge-system");
    assert("machine"@.len() != "forge-system"@.len());
    let tables = agent_tables(discovery.machine_interface_id@, text_of(discovery.api_url_override));
    match discovery.api_url_override {
        Some(url) => {
            assert(tables[0] == ("forge-system"@, seq![("api-server"@, url@)]));
        },
        None => {},
    }
}

/// A PXE URL of the machine's own changes what the template is told, and nothing else: custom
/// cloud-init is still fetched from the server's own URL.
pub proof fn law_pxe_url_override_changes_one_text(
    discovery: Discovery,
    other: Discovery,
    config: RuntimeConfig,
    around: Surroundings,
    agent_config: Seq<char>,
    key: Seq<char>,
)
    requires
        other == (Discovery { pxe_url_override: other.pxe_url_override, ..discovery }),
        key != "pxe_url"@,
    ensures
        discovery_value(discovery, config, around, agent_config, key) == discovery_value(
            other,
            config,
            around,
            agent_config,
            key,
        ),
        discovery_value(discovery, config, around, agent_config, "pxe_url"@) == Some(
            text_or(discovery.pxe_url_override, config.pxe_url@),
        ),
{
    lemma_keys_are_distinct();
}

/// The time of the request shows in one text only.
pub proof fn law_time_changes_one_text(
    discovery: Discovery,
    config: RuntimeConfig,
    around: Surroundings,
    later: Surroundings,
    agent_config: Seq<char>,
    key: Seq<char>,
)
    requires
        later == (Surroundings { seconds_since_epoch: later.seconds_since_epoch, ..around }),
        key != "seconds_since_epoch"@,
    ensures
        discovery_value(discovery, config, around, agent_config, key) == discovery_value(
            discovery,
            config,
            later,
            agent_config,
            key,
        ),
{
}

/// The number of virtual functions can be read back: it is the configured one, or the default.
pub proof fn law_num_of_vfs_reads_back(
    discovery: Discovery,
    config: RuntimeConfig,
    around: Surroundings,
    agent_config: Seq<char>,
)
    ensures
        ({
            let data = discovery_response(discovery, config, around, agent_config).template_data;
            decimal_value(data["num_of_vfs"@]) == match discovery.num_of_vfs {
                Some(number) => number,
                None => DEFAULT_NUM_OF_VFS,
            }
        }),
{
    lemma_keys_are_distinct();
    law_decimal_reads_back(
        match discovery.num_of_vfs {
            Some(number) => number as nat,
            None => DEFAULT_NUM_OF_VFS as nat,
        },
    );
}

/// The agent's configuration file can be read back: user data with the same encoded file is made
/// from the same file.
pub proof fn law_agent_config_reads_back(
    discovery: Discovery,
    config: RuntimeConfig,
    around: Surroundings,
    file: Seq<char>,
    other_file: Seq<char>,
)
    requires
        discovery_response(
            discovery,
            config,
            around,
            file,
        ).template_data["forge_agent_config_b64"@] == discovery_response(
            discovery,
            config,
            around,
            other_file,
        ).template_data["forge_agent_config_b64"@],
    ensures
        file == other_file,
{
    law_encoded_file_decides_file(
        discovery,
        config,
        around,
        file,
        discovery,
        config,
        around,
        other_file,
    );
}

/// The encoded file alone decides the agent's configuration file: user data with the same encoded
/// file is made from the same file, whatever DPU, configuration and surroundings it is made for.
pub proof fn law_encoded_file_decides_file(
    discovery: Discovery,
    config: RuntimeConfig,
    around: Surroundings,
    file: Seq<char>,
    other_discovery: Discovery,
    other_config: RuntimeConfig,
    other_around: Surroundings,
    other_file: Seq<char>,
)
    requires
        discovery_response(
            discovery,
            config,
            around,
            file,
        ).template_data["forge_agent_config_b64"@] == discovery_response(
            other_discovery,
            other_config,
            other_around,
            other_file,
        ).template_data["forge_agent_config_b64"@],
    ensures
        file == other_file,
{
    lemma_keys_are_distinct();
    law_base64_decides_bytes(encode_utf8(file), encode_utf8(other_file));
    encode_utf8_decode_utf8(file);
    encode_utf8_decode_utf8(other_file);
}

/// The encoded file tells a DPU which interface it boots from and which API endpoint it is to use
/// if any: DPUs that are handed the same encoded file have the same id and the same URL, whatever
/// characters these are made of.
pub proof fn law_encoded_file_tells_the_dpu(
    discovery: Discovery,
    config: RuntimeConfig,
    around: Surroundings,
    file: Seq<char>,
    other_discovery: Discovery,
    other_config: RuntimeConfig,
    other_around: Surroundings,
    other_file: Seq<char>,
)
    requires
        discovery_response(
            discovery,
            config,
            around,
            file,
        ).template_data["forge_agent_config_b64"@] == discovery_response(
            other_discovery,
            other_config,
            other_around,
            other_file,
        ).template_data["forge_agent_config_b64"@],
    ensures
        ({
            let id = discovery.machine_interface_id@;
            let url = text_of(discovery.api_url_override);
            let other_id = other_discovery.machine_interface_id@;
            let other_url = text_of(other_discovery.api_url_override);
            reads_as(file, id, url) && reads_as(other_file, other_id, other_url) ==> id == other_id
                && url == other_url
        }),
{
    law_encoded_file_decides_file(
        discovery,
        config,
        around,
        file,
        other_discovery,
        other_config,
        other_around,
        other_file,
    );
    law_agent_config_is_read_one_way(
        file,
        discovery.machine_interface_id@,
        text_of(discovery.api_url_override),
        other_discovery.machine_interface_id@,
        text_of(other_discovery.api_url_override),
    );
}

/// A bridge port is told together with the port that patches it to HBN, and a bridge's scalable
/// function together with its two representors.
pub proof fn law_intercept_texts_go_together(
    discovery: Discovery,
    config: RuntimeConfig,
    around: Surroundings,
    agent_config: Seq<char>,
)
    ensures
        ({
            let data = discovery_response(discovery, config, around, agent_config).template_data;
            let host_port = "forge_host_intercept_bridge_port"@;
            let host_patch = "forge_host_intercept_hbn_port"@;
            let vf_port = "forge_vf_intercept_bridge_port"@;
            let vf_patch = "forge_vf_intercept_hbn_port"@;
            let sf = "forge_vf_intercept_bridge_sf"@;
            let representor = "forge_vf_intercept_bridge_sf_representor"@;
            let bridge_representor = "forge_vf_intercept_bridge_sf_hbn_bridge_representor"@;
            &&& data.contains_key(host_port) == data.contains_key(host_patch)
            &&& data.contains_key(host_port) ==> data[host_patch] == "patch-hbn-"@ + data[host_port]
            &&& data.contains_key(vf_port) == data.contains_key(vf_patch)
            &&& data.contains_key(vf_port) ==> data[vf_patch] == "patch-hbn-"@ + data[vf_port]
            &&& data.contains_key(sf) == data.contains_key(representor)
            &&& data.contains_key(sf) == data.contains_key(bridge_representor)
            &&& data.contains_key(sf) ==> data[representor] == data[sf] + "_r"@
            &&& data.contains_key(sf) ==> data[bridge_representor] == data[sf] + "_if_r"@
        }),
{
    lemma_keys_are_distinct();
    reveal_strlit("");
    assert(""@ =~= Seq::empty());
    assert forall|text: Seq<char>, end: Seq<char>| #[trigger] (""@ + text + end) == text + end by {
        assert(""@ + text + end =~= text + end);
    }
    assert forall|start: Seq<char>, text: Seq<char>| #[trigger] (start + text + ""@) == start + text by {
        assert(start + text + ""@ =~= start + text);
    }
}

/// Without files on offer, be it that there are none or that the directory could not be listed,
/// nothing is downloaded and nothing run.
pub proof fn law_nothing_on_offer(
    discovery: Discovery,
    config: RuntimeConfig,
    around: Surroundings,
    agent_config: Seq<char>,
)
    requires
        match around.custom_cloud_init_files {
            Some(entries) => file_names(entries@).len() == 0,
            None => true,
        },
    ensures
        ({
            let data = discovery_response(discovery, config, around, agent_config).template_data;
            &&& data["custom_cloud_init_downloads"@] == Seq::<char>::empty()
            &&& data["custom_cloud_init_execute"@] == Seq::<char>::empty()
        }),
{
    lemma_keys_are_distinct();
    match around.custom_cloud_init_files {
        Some(entries) => {
            law_sorted_names(file_names(entries@), 0, 0);
        },
        None => {},
    }
}

/// The keys that the user data of a DPU may have.
pub open spec fn discovery_keys() -> Set<Seq<char>> {
    set![
        "mac_address"@,
        "hostname"@,
        "interface_id"@,
        "api_url"@,
        "pxe_url"@,
        "forge_agent_config_b64"@,
        "forge_bmc_fw_update"@,
        "seconds_since_epoch"@,
        "forge_hbn_reps"@,
        "forge_hbn_sfs"@,
        "num_of_vfs"@,
        "forge_vf_intercept_bridge_name"@,
        "forge_host_intercept_bridge_name"@,
        "forge_host_intercept_hbn_port"@,
        "forge_host_intercept_bridge_port"@,
        "forge_vf_intercept_hbn_port"@,
        "forge_vf_intercept_bridge_port"@,
        "forge_vf_intercept_bridge_sf_representor"@,
        "forge_vf_intercept_bridge_sf_hbn_bridge_representor"@,
        "forge_vf_intercept_bridge_sf"@,
        "custom_cloud_init_downloads"@,
        "custom_cloud_init_execute"@,
    ]
}

/// The user data has no other keys than these.
pub proof fn law_no_other_keys(
    discovery: Discovery,
    config: RuntimeConfig,
    around: Surroundings,
    agent_config: Seq<char>,
)
    ensures
        discovery_response(discovery, config, around, agent_config).template_data.dom().subset_of(
            discovery_keys(),
        ),
{
}

/// It makes no difference in which form the API server keeps the domain.
pub proof fn law_form_of_domain_is_irrelevant(
    discovery: Discovery,
    other: Discovery,
    config: RuntimeConfig,
    around: Surroundings,
    agent_config: Seq<char>,
)
    requires
        other == (Discovery { domain: other.domain, ..discovery }),
        other.domain.name() == discovery.domain.name(),
    ensures
        discovery_response(discovery, config, around, agent_config) == discovery_response(
            other,
            config,
            around,
            agent_config,
        ),
{
    assert(discovery_response(discovery, config, around, agent_config).template_data
        =~= discovery_response(other, config, around, agent_config).template_data);
}

/// Each setting that may be given or not is told as it is given, whatever else is known of the DPU:
/// its key is there if and only if the setting is, and the text under it is the given one.
pub proof fn law_settings_are_told_as_given(
    discovery: Discovery,
    config: RuntimeConfig,
    around: Surroundings,
    agent_config: Seq<char>,
)
    ensures
        ({
            let data = discovery_response(discovery, config, around, agent_config).template_data;
            &&& match discovery.hbn_reps {
                Some(text) => data.contains_key("forge_hbn_reps"@) && data["forge_hbn_reps"@] == text@,
                None => !data.contains_key("forge_hbn_reps"@),
            }
            &&& match discovery.hbn_sfs {
                Some(text) => data.contains_key("forge_hbn_sfs"@) && data["forge_hbn_sfs"@] == text@,
                None => !data.contains_key("forge_hbn_sfs"@),
            }
            &&& match discovery.vf_intercept_bridge_name {
                Some(text) => data.contains_key("forge_vf_intercept_bridge_name"@) && data["forge_vf_intercept_bridge_name"@] == text@,
                None => !data.contains_key("forge_vf_intercept_bridge_name"@),
            }
            &&& match discovery.host_intercept_bridge_name {
                Some(text) => data.contains_key("forge_host_intercept_bridge_name"@) && data["forge_host_intercept_bridge_name"@] == text@,
                None => !data.contains_key("forge_host_intercept_bridge_name"@),
            }
            &&& match discovery.host_intercept_bridge_port {
                Some(text) => data.contains_key("forge_host_intercept_bridge_port"@) && data["forge_host_intercept_bridge_port"@] == text@,
                None => !data.contains_key("forge_host_intercept_bridge_port"@),
            }
            &&& match discovery.vf_intercept_bridge_port {
                Some(text) => data.contains_key("forge_vf_intercept_bridge_port"@) && data["forge_vf_intercept_bridge_port"@] == text@,
                None => !data.contains_key("forge_vf_intercept_bridge_port"@),
            }
            &&& match discovery.vf_intercept_bridge_sf {
                Some(text) => data.contains_key("forge_vf_intercept_bridge_sf"@) && data["forge_vf_intercept_bridge_sf"@] == text@,
                None => !data.contains_key("forge_vf_intercept_bridge_sf"@),
            }
        }),
{
    lemma_keys_are_distinct();
}

/// A bridge port is told to HBN under the name of its patch port, and a scalable function under the
/// names of its two representors; none of these is told where the port or the function is not given.
pub proof fn law_derived_names_are_told(
    discovery: Discovery,
    config: RuntimeConfig,
    around: Surroundings,
    agent_config: Seq<char>,
)
    ensures
        ({
            let data = discovery_response(discovery, config, around, agent_config).template_data;
            &&& match discovery.host_intercept_bridge_port {
                Some(text) => data.contains_key("forge_host_intercept_hbn_port"@) && data["forge_host_intercept_hbn_port"@] == "patch-hbn-"@ + text@,
                None => !data.contains_key("forge_host_intercept_hbn_port"@),
            }
            &&& match discovery.vf_intercept_bridge_port {
                Some(text) => data.contains_key("forge_vf_intercept_hbn_port"@) && data["forge_vf_intercept_hbn_port"@] == "patch-hbn-"@ + text@,
                None => !data.contains_key("forge_vf_intercept_hbn_port"@),
            }
            &&& match discovery.vf_intercept_bridge_sf {
                Some(text) => data.contains_key("forge_vf_intercept_bridge_sf_representor"@) && data["forge_vf_intercept_bridge_sf_representor"@] == text@ + "_r"@,
                None => !data.contains_key("forge_vf_intercept_bridge_sf_representor"@),
            }
            &&& match discovery.vf_intercept_bridge_sf {
                Some(text) => data.contains_key("forge_vf_intercept_bridge_sf_hbn_bridge_representor"@) && data["forge_vf_intercept_bridge_sf_hbn_bridge_representor"@] == text@ + "_if_r"@,
                None => !data.contains_key("forge_vf_intercept_bridge_sf_hbn_bridge_representor"@),
            }
        }),
{
    lemma_keys_are_distinct();
    reveal_strlit("");
    assert forall|text: Seq<char>, end: Seq<char>| #[trigger] (""@ + text + end) == text + end by {
        assert(""@ + text + end =~= text + end);
    }
    assert forall|start: Seq<char>, text: Seq<char>| #[trigger] (start + text + ""@) == start + text by {
        assert(start + text + ""@ =~= start + text);
    }
}

/// The user data is rendered from its own template, and says who the DPU is: the MAC address and the
/// id of its interface, and the name of its domain if there is one, in whichever form.
pub proof fn law_dpu_is_told_who_it_is(
    discovery: Discovery,
    config: RuntimeConfig,
    around: Surroundings,
    agent_config: Seq<char>,
)
    ensures
        discovery_response(discovery, config, around, agent_config).template_key == "user-data"@,
        ({
            let data = discovery_response(discovery, config, around, agent_config).template_data;
            &&& data.contains_key("mac_address"@)
            &&& data["mac_address"@] == discovery.machine_interface.mac_address@
            &&& data.contains_key("interface_id"@)
            &&& data["interface_id"@] == discovery.machine_interface_id@
            &&& match discovery.domain.domain {
                Some(Domain::LegacyDomain { name }) => data.contains_key("hostname"@)
                    && data["hostname"@] == name@,
                Some(Domain::NewDomain { name }) => data.contains_key("hostname"@)
                    && data["hostname"@] == name@,
                None => !data.contains_key("hostname"@),
            }
        }),
{
    lemma_keys_are_distinct();
}

/// The DPU is told the URLs that are its own, each where it has one, and the common one where it has
/// none; the one does not depend on the other.
pub proof fn law_urls_are_told(
    discovery: Discovery,
    config: RuntimeConfig,
    around: Surroundings,
    agent_config: Seq<char>,
)
    ensures
        ({
            let data = discovery_response(discovery, config, around, agent_config).template_data;
            &&& data.contains_key("api_url"@)
            &&& data["api_url"@] == match discovery.api_url_override {
                Some(url) => url@,
                None => config.client_facing_api_url@,
            }
            &&& data.contains_key("pxe_url"@)
            &&& data["pxe_url"@] == match discovery.pxe_url_override {
                Some(url) => url@,
                None => config.pxe_url@,
            }
        }),
{
    lemma_keys_are_distinct();
}

/// Numbers are told in decimal digits, without leading zeros: the number of virtual functions, which
/// is sixteen where none is given, and the seconds since the epoch, zero where the clock stands before
/// it.
pub proof fn law_numbers_are_told(
    discovery: Discovery,
    config: RuntimeConfig,
    around: Surroundings,
    agent_config: Seq<char>,
)
    ensures
        ({
            let data = discovery_response(discovery, config, around, agent_config).template_data;
            let vfs = match discovery.num_of_vfs {
                Some(number) => number as nat,
                None => 16,
            };
            let seconds = match around.seconds_since_epoch {
                Some(seconds) => seconds as nat,
                None => 0,
            };
            &&& data.contains_key("num_of_vfs"@)
            &&& is_number(data["num_of_vfs"@], vfs)
            &&& data.contains_key("seconds_since_epoch"@)
            &&& is_number(data["seconds_since_epoch"@], seconds)
        }),
{
    lemma_keys_are_distinct();
    let vfs = match discovery.num_of_vfs {
        Some(number) => number as nat,
        None => 16,
    };
    let seconds = match around.seconds_since_epoch {
        Some(seconds) => seconds as nat,
        None => 0,
    };
    law_decimal_reads_back(vfs);
    law_decimal_is_digits(vfs);
    law_decimal_reads_back(seconds);
    law_decimal_is_digits(seconds);
}

/// The text is the number in decimal digits, without leading zeros.
pub open spec fn is_number(text: Seq<char>, number: nat) -> bool {
    &&& text.len() > 0
    &&& forall|k: int| 0 <= k < text.len() ==> '0' <= #[trigger] text[k] <= '9'
    &&& text.len() > 1 ==> text[0] != '0'
    &&& decimal_value(text) == number
}

/// The firmware update is told as it was rendered, and as an empty text where it was not. The agent's
/// configuration file is told in base64 of its UTF-8 bytes.
pub proof fn law_files_are_told_whole(
    discovery: Discovery,
    config: RuntimeConfig,
    around: Surroundings,
    agent_config: Seq<char>,
)
    ensures
        ({
            let data = discovery_response(discovery, config, around, agent_config).template_data;
            &&& data.contains_key("forge_bmc_fw_update"@)
            &&& match around.bmc_fw_update {
                Some(text) => data["forge_bmc_fw_update"@] == text@,
                None => data["forge_bmc_fw_update"@].len() == 0,
            }
            &&& data.contains_key("forge_agent_config_b64"@)
            &&& data["forge_agent_config_b64"@] == base64_text(encode_utf8(agent_config))
        }),
{
    lemma_keys_are_distinct();
    reveal_strlit("");
}

/// Custom snippets are looked for in the listing of the directory, under the server's own URL and the
/// configured web root or the default one. Every entry that is a file and has a name is downloaded to
/// the staging path of that name.
pub proof fn law_every_snippet_is_downloaded(
    discovery: Discovery,
    config: RuntimeConfig,
    around: Surroundings,
    agent_config: Seq<char>,
    i: int,
)
    requires
        around.custom_cloud_init_files is Some,
        0 <= i < around.custom_cloud_init_files->Some_0@.len(),
        around.custom_cloud_init_files->Some_0@[i].is_file,
        around.custom_cloud_init_files->Some_0@[i].name is Some,
    ensures
        ({
            let data = discovery_response(discovery, config, around, agent_config).template_data;
            let name = around.custom_cloud_init_files->Some_0@[i].name->Some_0@;
            let root = match around.custom_cloud_init_web_root {
                Some(root) => root@,
                None => "public/blobs/internal/cloud-init.d/dpu/"@,
            };
            let url = trimmed(config.pxe_url@, '/') + "/"@ + trimmed(root, '/') + "/"@ + name;
            let command = "curl -L --retry 5 --retry-all-errors -v -o /mnt/opt/forge/custom-cloud-init.d/"@
                + name + " "@ + url;
            stands_alone(data["custom_cloud_init_downloads"@], command)
        }),
{
    lemma_keys_are_distinct();
    let entries = around.custom_cloud_init_files->Some_0@;
    let name = entries[i].name->Some_0@;
    let root = match around.custom_cloud_init_web_root {
        Some(root) => root@,
        None => "public/blobs/internal/cloud-init.d/dpu/"@,
    };
    let url = trimmed(config.pxe_url@, '/') + "/"@ + trimmed(root, '/') + "/"@ + name;
    law_every_file_is_listed(entries, config.pxe_url@, root, i);
    let files = cloud_init_urls(entries, config.pxe_url@, root);
    let j = choose|j: int| 0 <= j < files.len() && files[j] == (name, url);
    law_every_file_is_downloaded(files, j);
    assert(offered_files(config, around) == files);
}

/// What is downloaded and run is what the listing of the directory makes, in the order of the names,
/// and nothing else: the parts for snippets are those of the list of its files, and both are empty if
/// and only if the directory could not be listed or holds no file with a name.
pub proof fn law_snippets_come_from_the_directory(
    discovery: Discovery,
    config: RuntimeConfig,
    around: Surroundings,
    agent_config: Seq<char>,
)
    ensures
        ({
            let data = discovery_response(discovery, config, around, agent_config).template_data;
            let root = match around.custom_cloud_init_web_root {
                Some(root) => root@,
                None => "public/blobs/internal/cloud-init.d/dpu/"@,
            };
            let holds_files = match around.custom_cloud_init_files {
                Some(entries) => exists|i: int|
                    0 <= i < entries@.len() && (#[trigger] entries@[i]).is_file && entries@[i].name
                        is Some,
                None => false,
            };
            &&& data.contains_key("custom_cloud_init_downloads"@)
            &&& data.contains_key("custom_cloud_init_execute"@)
            &&& data["custom_cloud_init_downloads"@].len() > 0 <==> holds_files
            &&& data["custom_cloud_init_execute"@].len() > 0 <==> holds_files
            &&& holds_files ==> {
                let files = cloud_init_urls(
                    around.custom_cloud_init_files->Some_0@,
                    config.pxe_url@,
                    root,
                );
                &&& data["custom_cloud_init_downloads"@] == download_block(files)
                &&& data["custom_cloud_init_execute"@] == indented_block(execute_script())
            }
        }),
{
    lemma_keys_are_distinct();
    let root = match around.custom_cloud_init_web_root {
        Some(root) => root@,
        None => "public/blobs/internal/cloud-init.d/dpu/"@,
    };
    match around.custom_cloud_init_files {
        Some(entries) => {
            let files = cloud_init_urls(entries@, config.pxe_url@, root);
            law_parts_are_filled_together(files);
            if files.len() > 0 {
                law_only_files_are_listed(entries@, config.pxe_url@, root, 0);
            }
            if exists|i: int|
                0 <= i < entries@.len() && (#[trigger] entries@[i]).is_file && entries@[i].name is Some {
                let i = choose|i: int|
                    0 <= i < entries@.len() && (#[trigger] entries@[i]).is_file && entries@[i].name
                        is Some;
                law_every_file_is_listed(entries@, config.pxe_url@, root, i);
            }
        },
        None => {
            law_parts_are_filled_together(Seq::empty());
        },
    }
}

/// Each text depends on what it tells and on nothing else: where two DPUs agree in that, the text is
/// the same for both, or missing for both, whatever else of them, of the configuration and of the
/// surroundings differs.
pub proof fn law_texts_depend_on_their_own_settings(
    discovery: Discovery,
    config: RuntimeConfig,
    around: Surroundings,
    agent_config: Seq<char>,
    other_discovery: Discovery,
    other_config: RuntimeConfig,
    other_around: Surroundings,
    other_agent_config: Seq<char>,
)
    ensures
        ({
            let data = discovery_response(discovery, config, around, agent_config).template_data;
            let other = discovery_response(
                other_discovery,
                other_config,
                other_around,
                other_agent_config,
            ).template_data;
            let alike = |key: Seq<char>|
                {
                    &&& data.contains_key(key) == other.contains_key(key)
                    &&& data.contains_key(key) ==> data[key] == other[key]
                };
            &&& discovery.hbn_reps == other_discovery.hbn_reps ==> alike("forge_hbn_reps"@)
            &&& discovery.hbn_sfs == other_discovery.hbn_sfs ==> alike("forge_hbn_sfs"@)
            &&& discovery.vf_intercept_bridge_name == other_discovery.vf_intercept_bridge_name ==> alike("forge_vf_intercept_bridge_name"@)
            &&& discovery.host_intercept_bridge_name == other_discovery.host_intercept_bridge_name ==> alike("forge_host_intercept_bridge_name"@)
            &&& discovery.host_intercept_bridge_port == other_discovery.host_intercept_bridge_port ==> alike("forge_host_intercept_bridge_port"@) && alike("forge_host_intercept_hbn_port"@)
            &&& discovery.vf_intercept_bridge_port == other_discovery.vf_intercept_bridge_port ==> alike("forge_vf_intercept_bridge_port"@) && alike("forge_vf_intercept_hbn_port"@)
            &&& discovery.vf_intercept_bridge_sf == other_discovery.vf_intercept_bridge_sf ==> alike("forge_vf_intercept_bridge_sf"@) && alike("forge_vf_intercept_bridge_sf_representor"@) && alike("forge_vf_intercept_bridge_sf_hbn_bridge_representor"@)
            &&& discovery.num_of_vfs == other_discovery.num_of_vfs ==> alike("num_of_vfs"@)
            &&& discovery.machine_interface_id == other_discovery.machine_interface_id ==> alike("interface_id"@)
            &&& discovery.machine_interface.mac_address == other_discovery.machine_interface.mac_address ==> alike("mac_address"@)
            &&& discovery.domain == other_discovery.domain ==> alike("hostname"@)
            &&& discovery.api_url_override == other_discovery.api_url_override
                && config.client_facing_api_url == other_config.client_facing_api_url ==> alike(
                "api_url"@,
            )
            &&& discovery.pxe_url_override == other_discovery.pxe_url_override && config.pxe_url
                == other_config.pxe_url ==> alike("pxe_url"@)
            &&& agent_config == other_agent_config ==> alike("forge_agent_config_b64"@)
            &&& around.bmc_fw_update == other_around.bmc_fw_update ==> alike("forge_bmc_fw_update"@)
            &&& around.seconds_since_epoch == other_around.seconds_since_epoch ==> alike(
                "seconds_since_epoch"@,
            )
            &&& around.custom_cloud_init_files == other_around.custom_cloud_init_files
                && around.custom_cloud_init_web_root == other_around.custom_cloud_init_web_root
                && config.pxe_url == other_config.pxe_url ==> alike("custom_cloud_init_downloads"@)
                && alike("custom_cloud_init_execute"@)
        }),
{
    lemma_keys_are_distinct();
}

/// A text that is told has one of these keys.
pub proof fn law_keys_are_among_these(
    discovery: Discovery,
    config: RuntimeConfig,
    around: Surroundings,
    agent_config: Seq<char>,
    key: Seq<char>,
)
    requires
        discovery_response(discovery, config, around, agent_config).template_data.contains_key(key),
    ensures
        ({
            ||| key == "mac_address"@
            ||| key == "hostname"@
            ||| key == "interface_id"@
            ||| key == "api_url"@
            ||| key == "pxe_url"@
            ||| key == "forge_agent_config_b64"@
            ||| key == "forge_bmc_fw_update"@
            ||| key == "seconds_since_epoch"@
            ||| key == "forge_hbn_reps"@
            ||| key == "forge_hbn_sfs"@
            ||| key == "num_of_vfs"@
            ||| key == "forge_vf_intercept_bridge_name"@
            ||| key == "forge_host_intercept_bridge_name"@
            ||| key == "forge_host_intercept_hbn_port"@
            ||| key == "forge_host_intercept_bridge_port"@
            ||| key == "forge_vf_intercept_hbn_port"@
            ||| key == "forge_vf_intercept_bridge_port"@
            ||| key == "forge_vf_intercept_bridge_sf_representor"@
            ||| key == "forge_vf_intercept_bridge_sf_hbn_bridge_representor"@
            ||| key == "forge_vf_intercept_bridge_sf"@
            ||| key == "custom_cloud_init_downloads"@
            ||| key == "custom_cloud_init_execute"@
        }),
{
}

/// The directory that is listed is the configured one, as it is given, or else the one that the
/// server's own files lie in; the same holds of the path below which they are offered.
pub proof fn law_configured_places_come_first(configured: Option<Seq<char>>)
    ensures
        includes_directory(configured) == match configured {
            Some(directory) => directory,
            None => "/forge-boot-artifacts/blobs/internal/cloud-init.d/dpu/"@,
        },
        web_root(configured) == match configured {
            Some(root) => root,
            None => "public/blobs/internal/cloud-init.d/dpu/"@,
        },
{
}

/// The firmware update is rendered from its own template and no texts.
pub proof fn law_firmware_update_is_rendered_from_nothing()
    ensures
        bmc_fw_update_rendering().template_key == "bmc_fw_update"@,
        forall|key: Seq<char>| !(#[trigger] bmc_fw_update_rendering().template_data.contains_key(key)),
{
}

} // verus!
