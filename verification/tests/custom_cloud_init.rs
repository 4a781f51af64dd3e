use pxe_cloud_init::listing::{get_cloud_init_urls, DirectoryEntry};
use pxe_cloud_init::snippets::{downloads, execute_lines, indent, snippet_blocks};

fn file(name: &str) -> DirectoryEntry {
    DirectoryEntry {
        is_file: true,
        name: Some(name.to_string()),
    }
}

fn urls(entries: Vec<DirectoryEntry>, server: &str, root: &str) -> Vec<(String, String)> {
    let listing: Result<Vec<DirectoryEntry>, String> = Ok(entries);
    get_cloud_init_urls(listing, server, root).unwrap()
}

fn pair(name: &str, url: &str) -> (String, String) {
    (name.to_string(), url.to_string())
}

#[test]
fn files_are_offered_in_the_order_of_their_names() {
    assert_eq!(
        urls(
            vec![file("20-b.cfg"), file("10-a.cfg")],
            "http://carbide-pxe.forge/",
            "/public/blobs/"
        ),
        vec![
            pair("10-a.cfg", "http://carbide-pxe.forge/public/blobs/10-a.cfg"),
            pair("20-b.cfg", "http://carbide-pxe.forge/public/blobs/20-b.cfg"),
        ]
    );
}

#[test]
fn no_files_give_an_empty_list() {
    assert_eq!(urls(vec![], "s", "r"), vec![]);
    let directory = DirectoryEntry {
        is_file: false,
        name: Some("sub".to_string()),
    };
    assert_eq!(urls(vec![directory], "s", "r"), vec![]);
}

#[test]
fn other_entries_are_passed_over() {
    let entries = vec![
        DirectoryEntry {
            is_file: false,
            name: Some("sub".to_string()),
        },
        file("a"),
        DirectoryEntry {
            is_file: true,
            name: None,
        },
    ];
    assert_eq!(urls(entries, "s", "r"), vec![pair("a", "s/r/a")]);
}

#[test]
fn listing_order_and_outer_slashes_make_no_difference() {
    let expected = urls(vec![file("a"), file("b")], "s", "r");
    assert_eq!(urls(vec![file("b"), file("a")], "s", "r"), expected);
    assert_eq!(urls(vec![file("b"), file("a")], "s/", "//r/"), expected);
}

#[test]
fn any_number_of_outer_slashes_makes_no_difference() {
    let expected = vec![pair("a", "http://s/x//r/a")];
    for server in ["http://s", "http://s/", "///http://s////"] {
        for root in ["x//r", "//x//r", "x//r///", "/x//r/"] {
            assert_eq!(urls(vec![file("a")], server, root), expected);
        }
    }
    assert_eq!(urls(vec![file("a")], "///", ""), vec![pair("a", "//a")]);
}

#[test]
fn listings_with_the_same_files_give_the_same_list() {
    let other = |is_file: bool, name: Option<&str>| DirectoryEntry {
        is_file,
        name: name.map(|name| name.to_string()),
    };
    let expected = urls(vec![file("b"), file("a")], "s", "r");
    assert_eq!(expected, vec![pair("a", "s/r/a"), pair("b", "s/r/b")]);
    assert_eq!(
        urls(
            vec![
                other(false, Some("c")),
                file("b"),
                other(true, None),
                other(false, None),
                file("a"),
                other(false, Some("a")),
            ],
            "s",
            "r"
        ),
        expected
    );
}

#[test]
fn a_failed_listing_is_handed_on() {
    let listing: Result<Vec<DirectoryEntry>, String> = Err("denied".to_string());
    assert_eq!(
        get_cloud_init_urls(listing, "s", "r"),
        Err("denied".to_string())
    );
}

#[test]
fn download_commands() {
    assert_eq!(
        downloads(&vec![pair("a", "s/r/a"), pair("b", "s/r/b")]),
        "\n# Start External Snippet Injection\nmkdir -p /mnt/opt/forge/custom-cloud-init.d/\n\
         curl -L --retry 5 --retry-all-errors -v -o /mnt/opt/forge/custom-cloud-init.d/a s/r/a\n\
         curl -L --retry 5 --retry-all-errors -v -o /mnt/opt/forge/custom-cloud-init.d/b s/r/b\n\
         # End External Snippet Injection\n"
    );
}

#[test]
fn script_names_the_staging_directory() {
    let lines = execute_lines();
    assert_eq!(lines.len(), 33);
    assert_eq!(lines[0], "# --- Start Cloud-Init Snippet Execution ---");
    assert_eq!(lines[8], "if [ -d \"/opt/forge/custom-cloud-init.d/\" ]; then");
    assert_eq!(
        lines[9],
        "    for snippet in /opt/forge/custom-cloud-init.d/*; do"
    );
    assert_eq!(
        lines[19],
        "            ip vrf exec mgmt cloud-init init --local && \\"
    );
    assert_eq!(lines[32], "# --- End Cloud-Init Snippet Execution ---");
}

#[test]
fn lines_are_indented_for_yaml() {
    let lines = vec![
        "first".to_string(),
        "second".to_string(),
        String::new(),
        "  third".to_string(),
    ];
    assert_eq!(indent(&lines), "first\n      second\n\n        third");
    assert_eq!(indent(&vec![]), "");
}

#[test]
fn script_is_indented_for_yaml() {
    let blocks = snippet_blocks(&vec![pair("a", "s/r/a")]);
    assert!(blocks
        .execute
        .starts_with("# --- Start Cloud-Init Snippet Execution ---\n      CLOUD_DIR=\"/var/lib/cloud\"\n"));
    assert!(blocks
        .execute
        .ends_with("\n      # --- End Cloud-Init Snippet Execution ---"));
    for line in blocks.execute.split('\n').skip(1) {
        assert!(line.is_empty() || line.starts_with("      "));
    }
    assert!(blocks.downloads.contains("custom-cloud-init.d/a s/r/a"));
}

#[test]
fn without_files_there_are_no_snippets() {
    let blocks = snippet_blocks(&vec![]);
    assert_eq!(blocks.downloads, "");
    assert_eq!(blocks.execute, "");
}
