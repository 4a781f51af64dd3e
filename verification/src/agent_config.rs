//! The configuration file of the agent that runs on a DPU.

use crate::lines::{law_lines_of_two_texts, law_one_line, lines};
use crate::snippets::is_one_line;
use crate::text::joined;
use vstd::prelude::*;

verus! {

/// Where the agent finds the API server.
#[derive(Debug)]
pub struct ForgeSystemConfigFromPxe {
    pub api_server: String,
}

/// Which machine interface the agent runs for.
#[derive(Debug)]
pub struct MachineConfigFromPxe {
    pub interface_id: String,
}

/// What the agent is told at boot. What is left out here takes the agent's own default.
#[derive(Debug)]
pub struct AgentConfigFromPxe {
    pub forge_system: Option<ForgeSystemConfigFromPxe>,
    pub machine: MachineConfigFromPxe,
}

/// A TOML table of texts: its name, and its keys with their values.
pub type TableView = (Seq<char>, Seq<(Seq<char>, Seq<char>)>);

/// The tables of the agent's configuration file.
pub open spec fn agent_tables(interface_id: Seq<char>, api_url: Option<Seq<char>>) -> Seq<TableView> {
    let machine = ("machine"@, seq![("interface-id"@, interface_id)]);
    match api_url {
        Some(url) => seq![("forge-system"@, seq![("api-server"@, url)]), machine],
        None => seq![machine],
    }
}

impl AgentConfigFromPxe {
    /// The API endpoint that the agent is told to use.
    pub open spec fn api_url(self) -> Option<Seq<char>> {
        match self.forge_system {
            Some(system) => Some(system.api_server@),
            None => None,
        }
    }

    /// The tables of the configuration file, in the order in which they are written.
    pub fn tables(self) -> (tables: Vec<(String, Vec<(String, String)>)>)
        ensures
            tables.deep_view() == agent_tables(self.machine.interface_id@, self.api_url()),
            tables.deep_view().last() == ("machine"@, seq![("interface-id"@, self.machine.interface_id@)]),
            match self.forge_system {
                Some(system) => tables.len() == 2 && tables.deep_view()[0] == (
                    "forge-system"@,
                    seq![("api-server"@, system.api_server@)],
                ),
                None => tables.len() == 1,
            },
    {
        let ghost expected = agent_tables(self.machine.interface_id@, self.api_url());
        let mut tables: Vec<(String, Vec<(String, String)>)> = Vec::new();
        match self.forge_system {
            Some(system) => {
                let mut fields: Vec<(String, String)> = Vec::new();
                fields.push(("api-server".to_string(), system.api_server));
                tables.push(("forge-system".to_string(), fields));
            },
            None => {},
        }
        let mut fields: Vec<(String, String)> = Vec::new();
        fields.push(("interface-id".to_string(), self.machine.interface_id));
        tables.push(("machine".to_string(), fields));
        proof {
            assert(tables.deep_view() =~~= expected);
        }
        tables
    }
}

/// No name occurs twice among the tables, and no key twice in one table.
pub open spec fn names_are_distinct(tables: Seq<TableView>) -> bool {
    &&& forall|i: int, j: int|
        0 <= i < j < tables.len() ==> (#[trigger] tables[i]).0 != (#[trigger] tables[j]).0
    &&& forall|t: int, i: int, j: int|
        0 <= t < tables.len() && 0 <= i < j < tables[t].1.len() ==> (#[trigger] tables[t].1[i]).0
            != (#[trigger] tables[t].1[j]).0
}

/// A name that TOML takes without quotes.
pub open spec fn is_bare(name: Seq<char>) -> bool {
    &&& name.len() > 0
    &&& forall|i: int|
        0 <= i < name.len() ==> {
            ||| 'a' <= #[trigger] name[i] <= 'z'
            ||| 'A' <= name[i] <= 'Z'
            ||| '0' <= name[i] <= '9'
            ||| name[i] == '-'
            ||| name[i] == '_'
        }
}

/// A text that stands between double quotes as it is: no control character, no double quote, no
/// backslash.
pub open spec fn is_plain(text: Seq<char>) -> bool {
    forall|i: int|
        0 <= i < text.len() ==> {
            &&& #[trigger] text[i] >= ' '
            &&& text[i] != '\x7f'
            &&& text[i] != '"'
            &&& text[i] != '\\'
        }
}

/// All names and keys are bare.
pub open spec fn names_are_bare(tables: Seq<TableView>) -> bool {
    forall|t: int|
        0 <= t < tables.len() ==> is_bare(#[trigger] tables[t].0) && forall|i: int|
            0 <= i < tables[t].1.len() ==> is_bare((#[trigger] tables[t].1[i]).0)
}

/// All names are bare and all values plain.
pub open spec fn is_plain_document(tables: Seq<TableView>) -> bool {
    forall|t: int|
        0 <= t < tables.len() ==> is_bare(#[trigger] tables[t].0) && forall|i: int|
            0 <= i < tables[t].1.len() ==> is_bare((#[trigger] tables[t].1[i]).0) && is_plain(
                tables[t].1[i].1,
            )
}

/// The line of a bare key with a plain value.
pub open spec fn field_line(field: (Seq<char>, Seq<char>)) -> Seq<char> {
    field.0 + " = \""@ + field.1 + "\"\n"@
}

/// A table with a bare name, bare keys and plain values.
pub open spec fn table_text(table: TableView) -> Seq<char> {
    "["@ + table.0 + "]\n"@ + joined(
        table.1.map_values(|field: (Seq<char>, Seq<char>)| field_line(field)),
        Seq::empty(),
    )
}

/// A TOML document of bare names and plain values: the tables, with an empty line between each two.
pub open spec fn plain_document_text(tables: Seq<TableView>) -> Seq<char> {
    joined(tables.map_values(|table: TableView| table_text(table)), "\n"@)
}

/// What the `toml` crate writes for tables of texts, in this order.
pub uninterp spec fn toml_text(tables: Seq<(Seq<char>, Seq<(Seq<char>, Seq<char>)>)>) -> Seq<char>;

/// What `from_str` of the `toml` crate reads in a text that is a document of tables of texts and
/// of nothing else: the tables, in the order in which they stand. It is `None` for any other text.
pub uninterp spec fn toml_tables(text: Seq<char>) -> Option<
    Seq<(Seq<char>, Seq<(Seq<char>, Seq<char>)>)>,
>;

/// Calls `to_string` of the `toml` crate on a document that holds the tables, in order; an error
/// comes back as its message.
///
/// Claimed of it: tables of texts are always written, and what is written depends on the names,
/// keys, values and their order alone. Where all names and keys are bare, `from_str` of the same
/// crate reads the tables back from it, whatever the values hold. (A name that is not bare may be
/// one that the crate keeps for itself, and is then read as something else.) Where moreover all
/// values are plain, what is written is `plain_document_text`; how other names and values are
/// quoted is left open.
#[verifier::external_body]
fn toml_to_string(tables: &Vec<(String, Vec<(String, String)>)>) -> (text: Result<String, String>)
    requires
        names_are_distinct(tables.deep_view()),
    ensures
        text is Ok,
        text->Ok_0@ == toml_text(tables.deep_view()),
        names_are_bare(tables.deep_view()) ==> toml_tables(text->Ok_0@) == Some(tables.deep_view()),
        is_plain_document(tables.deep_view()) ==> text->Ok_0@ == plain_document_text(
            tables.deep_view(),
        ),
{
    let mut document = toml::Table::new();
    for (name, fields) in tables {
        let mut table = toml::Table::new();
        for (key, value) in fields {
            table.insert(key.clone(), toml::Value::String(value.clone()));
        }
        document.insert(name.clone(), toml::Value::Table(table));
    }
    match toml::to_string(&document) {
        Ok(text) => Ok(text),
        Err(error) => Err(error.to_string()),
    }
}

/// The file to hand out for what came of writing the configuration: the text, or, where it could
/// not be written, a comment that says why.
pub open spec fn file_text(written: Result<Seq<char>, Seq<char>>) -> Seq<char> {
    match written {
        Ok(text) => text,
        Err(error) => "# serialization error: "@ + error,
    }
}

/// Turns what came of writing the configuration into the file to hand out.
pub fn agent_config_file(written: Result<String, String>) -> (file: String)
    ensures
        file@ == file_text(
            match written {
                Ok(text) => Ok(text@),
                Err(error) => Err(error@),
            },
        ),
{
    match written {
        Ok(text) => text,
        Err(error) => {
            let mut file: String = "# serialization error: ".to_string();
            file.append(error.as_str());
            file
        },
    }
}

/// The agent's configuration file, where the interface id and the URL are plain texts.
pub open spec fn plain_agent_config(interface_id: Seq<char>, api_url: Option<Seq<char>>) -> Seq<char> {
    let machine = "[machine]\ninterface-id = \""@ + interface_id + "\"\n"@;
    match api_url {
        Some(url) => "[forge-system]\napi-server = \""@ + url + "\"\n\n"@ + machine,
        None => machine,
    }
}

/// The entry of this name, if there is one.
pub open spec fn entry_of<V>(entries: Seq<(Seq<char>, V)>, name: Seq<char>) -> Option<V> {
    if exists|i: int| 0 <= i < entries.len() && (#[trigger] entries[i]).0 == name {
        Some(entries[choose|i: int| 0 <= i < entries.len() && (#[trigger] entries[i]).0 == name].1)
    } else {
        None
    }
}

/// The table of this name that a reader of the file finds, if any.
pub open spec fn table_read(file: Seq<char>, name: Seq<char>) -> Option<Seq<(Seq<char>, Seq<char>)>> {
    match toml_tables(file) {
        Some(tables) => entry_of(tables, name),
        None => None,
    }
}

/// The text that a reader of the file finds under a key of a table, if any.
pub open spec fn text_read(file: Seq<char>, name: Seq<char>, key: Seq<char>) -> Option<Seq<char>> {
    match table_read(file, name) {
        Some(fields) => entry_of(fields, key),
        None => None,
    }
}

/// A reader of the file finds the agent's configuration for this interface id and this URL.
pub open spec fn reads_as(file: Seq<char>, interface_id: Seq<char>, api_url: Option<Seq<char>>) -> bool {
    toml_tables(file) == Some(agent_tables(interface_id, api_url))
}

/// Generates the content of the `/etc/forge/config.toml` file.
///
/// When `api_url_override` is provided (for external hosts on the static-assignments segment), it
/// is written into the `[forge-system]` section, so that the agent connects to that API endpoint
/// instead of its default one.
pub fn generate_forge_agent_config(
    machine_interface_id: &str,
    api_url_override: Option<&str>,
) -> (file: String)
    ensures
        file@ == toml_text(
            agent_tables(
                machine_interface_id@,
                match api_url_override {
                    Some(url) => Some(url@),
                    None => None,
                },
            ),
        ),
        reads_as(
            file@,
            machine_interface_id@,
            match api_url_override {
                Some(url) => Some(url@),
                None => None,
            },
        ),
        text_read(file@, "machine"@, "interface-id"@) == Some(machine_interface_id@),
        text_read(file@, "forge-system"@, "api-server"@) == match api_url_override {
            Some(url) => Some(url@),
            None => None,
        },
        table_read(file@, "forge-system"@) is Some <==> api_url_override is Some,
        is_plain(machine_interface_id@) && (api_url_override matches Some(url) ==> is_plain(url@))
            ==> file@ == plain_agent_config(
            machine_interface_id@,
            match api_url_override {
                Some(url) => Some(url@),
                None => None,
            },
        ),
{
    let config = AgentConfigFromPxe {
        forge_system: match api_url_override {
            Some(url) => Some(ForgeSystemConfigFromPxe { api_server: url.to_string() }),
            None => None,
        },
        machine: MachineConfigFromPxe { interface_id: machine_interface_id.to_string() },
    };
    let tables = config.tables();
    proof {
        let api_url = match api_url_override {
            Some(url) => Some(url@),
            None => None,
        };
        lemma_agent_tables(machine_interface_id@, api_url);
    }
    let file: String = agent_config_file(toml_to_string(&tables));
    proof {
        let api_url = match api_url_override {
            Some(url) => Some(url@),
            None => None,
        };
        law_agent_config_is_read_as_told(file@, machine_interface_id@, api_url);
    }
    file
}

/// The tables of the agent's configuration are fit to be written, and plain values make the plain
/// file.
proof fn lemma_agent_tables(interface_id: Seq<char>, api_url: Option<Seq<char>>)
    ensures
        names_are_distinct(agent_tables(interface_id, api_url)),
        names_are_bare(agent_tables(interface_id, api_url)),
        is_plain(interface_id) && (api_url matches Some(url) ==> is_plain(url))
            ==> is_plain_document(agent_tables(interface_id, api_url)),
        plain_document_text(agent_tables(interface_id, api_url)) == plain_agent_config(
            interface_id,
            api_url,
        ),
{
    reveal_strlit("machine");
    reveal_strlit("interface-id");
    reveal_strlit("forge-system");
    reveal_strlit("api-server");
    reveal_strlit("[");
    reveal_strlit("]\n");
    reveal_strlit(" = \"");
    reveal_strlit("\"\n");
    reveal_strlit("\n");
    reveal_strlit("\"\n\n");
    reveal_strlit("[machine]\ninterface-id = \"");
    reveal_strlit("[forge-system]\napi-server = \"");
    reveal_with_fuel(joined, 3);
    let tables = agent_tables(interface_id, api_url);
    let texts = tables.map_values(|table: TableView| table_text(table));
    let machine = tables.last();
    lemma_one_field(machine);
    assert(table_text(machine) =~= "[machine]\ninterface-id = \""@ + interface_id + "\"\n"@);
    match api_url {
        Some(url) => {
            lemma_one_field(tables[0]);
            assert(texts.drop_last() =~= seq![table_text(tables[0])]);
            assert(plain_document_text(tables) =~= plain_agent_config(interface_id, api_url));
        },
        None => {},
    }
}

/// The text of a table with one field.
proof fn lemma_one_field(table: TableView)
    requires
        table.1.len() == 1,
    ensures
        table_text(table) == "["@ + table.0 + "]\n"@ + field_line(table.1[0]),
{
    reveal_with_fuel(joined, 2);
}

/// Plain texts that are followed by a double quote are told apart by what is written.
proof fn lemma_quoted_text(a: Seq<char>, rest_a: Seq<char>, b: Seq<char>, rest_b: Seq<char>)
    requires
        is_plain(a),
        is_plain(b),
        rest_a.len() > 0 && rest_a[0] == '"',
        rest_b.len() > 0 && rest_b[0] == '"',
        a + rest_a == b + rest_b,
    ensures
        a == b,
        rest_a == rest_b,
{
    let text = a + rest_a;
    if a.len() < b.len() {
        assert(text[a.len() as int] == '"');
        assert((b + rest_b)[a.len() as int] == b[a.len() as int]);
    } else if b.len() < a.len() {
        assert((b + rest_b)[b.len() as int] == '"');
        assert(text[b.len() as int] == a[b.len() as int]);
    }
    assert(a =~= text.take(a.len() as int));
    assert(b =~= (b + rest_b).take(b.len() as int));
    assert(rest_a =~= text.skip(a.len() as int));
    assert(rest_b =~= (b + rest_b).skip(b.len() as int));
}

/// The one entry of a list is found under its name, and nothing under another.
proof fn lemma_only_entry<V>(entries: Seq<(Seq<char>, V)>, name: Seq<char>)
    requires
        entries.len() == 1,
    ensures
        entry_of(entries, name) == if entries[0].0 == name {
            Some(entries[0].1)
        } else {
            None
        },
{
    assert(entries[0].0 == name ==> exists|i: int|
        0 <= i < entries.len() && (#[trigger] entries[i]).0 == name);
}

/// What a reader of the configuration file finds is what the agent was to be told, whatever
/// characters it is made of: the interface id, and the URL if there is one. There is nothing else
/// in the table of the machine, and no table of the API server where there is no URL.
pub proof fn law_agent_config_is_read_as_told(
    file: Seq<char>,
    interface_id: Seq<char>,
    api_url: Option<Seq<char>>,
)
    ensures
        reads_as(file, interface_id, api_url) ==> {
            &&& table_read(file, "machine"@) == Some(seq![("interface-id"@, interface_id)])
            &&& table_read(file, "forge-system"@) == match api_url {
                Some(url) => Some(seq![("api-server"@, url)]),
                None => None,
            }
            &&& text_read(file, "machine"@, "interface-id"@) == Some(interface_id)
            &&& text_read(file, "forge-system"@, "api-server"@) == api_url
        },
{
    reveal_strlit("machine");
    reveal_strlit("forge-system");
    assert("machine"@.len() != "forge-system"@.len());
    let tables = agent_tables(interface_id, api_url);
    let machine = seq![("interface-id"@, interface_id)];
    lemma_only_entry(machine, "interface-id"@);
    match api_url {
        Some(url) => {
            lemma_only_entry(seq![("api-server"@, url)], "api-server"@);
            assert(tables[0].0 == "forge-system"@);
            assert(tables[1].0 == "machine"@);
        },
        None => {
            lemma_only_entry(tables, "machine"@);
            lemma_only_entry(tables, "forge-system"@);
        },
    }
}

/// The configuration file says which interface the agent runs for, and which API endpoint it is to
/// use if any: one file is not made for two different ids or URLs, whatever characters they are
/// made of.
pub proof fn law_agent_config_is_read_one_way(
    file: Seq<char>,
    id_a: Seq<char>,
    url_a: Option<Seq<char>>,
    id_b: Seq<char>,
    url_b: Option<Seq<char>>,
)
    ensures
        reads_as(file, id_a, url_a) && reads_as(file, id_b, url_b) ==> id_a == id_b && url_a == url_b,
{
    law_agent_config_is_read_as_told(file, id_a, url_a);
    law_agent_config_is_read_as_told(file, id_b, url_b);
}

/// What the agent is told of its machine does not depend on the URL: a reader finds the same table
/// of the machine in the files for one interface, whatever URL each is made for.
pub proof fn law_url_leaves_the_machine_alone(
    file_a: Seq<char>,
    file_b: Seq<char>,
    interface_id: Seq<char>,
    url_a: Option<Seq<char>>,
    url_b: Option<Seq<char>>,
)
    ensures
        reads_as(file_a, interface_id, url_a) && reads_as(file_b, interface_id, url_b)
            ==> table_read(file_a, "machine"@) == table_read(file_b, "machine"@),
{
    law_agent_config_is_read_as_told(file_a, interface_id, url_a);
    law_agent_config_is_read_as_told(file_b, interface_id, url_b);
}

/// The text of the configuration file alone tells plain inputs apart: plain texts that make the
/// same file are the same.
pub proof fn law_agent_config_decides_inputs(
    id_a: Seq<char>,
    url_a: Option<Seq<char>>,
    id_b: Seq<char>,
    url_b: Option<Seq<char>>,
)
    requires
        is_plain(id_a),
        is_plain(id_b),
        url_a matches Some(url) ==> is_plain(url),
        url_b matches Some(url) ==> is_plain(url),
        plain_agent_config(id_a, url_a) == plain_agent_config(id_b, url_b),
    ensures
        id_a == id_b,
        url_a == url_b,
{
    reveal_strlit("\"\n");
    reveal_strlit("\"\n\n");
    reveal_strlit("[machine]\ninterface-id = \"");
    reveal_strlit("[forge-system]\napi-server = \"");
    let head = "[machine]\ninterface-id = \""@;
    let system = "[forge-system]\napi-server = \""@;
    let text_a = plain_agent_config(id_a, url_a);
    let text_b = plain_agent_config(id_b, url_b);
    let machine_a = head + id_a + "\"\n"@;
    let machine_b = head + id_b + "\"\n"@;
    assert(head[1] == 'm' && system[1] == 'f');
    match (url_a, url_b) {
        (Some(a), Some(b)) => {
            let rest_a = "\"\n\n"@ + machine_a;
            let rest_b = "\"\n\n"@ + machine_b;
            assert(text_a.skip(system.len() as int) =~= a + rest_a);
            assert(text_b.skip(system.len() as int) =~= b + rest_b);
            lemma_quoted_text(a, rest_a, b, rest_b);
            assert(rest_a.skip(3) =~= machine_a);
            assert(rest_b.skip(3) =~= machine_b);
        },
        (None, None) => {},
        (Some(_), None) => {
            assert(text_a[1] == 'f' && text_b[1] == 'm');
        },
        (None, Some(_)) => {
            assert(text_a[1] == 'm' && text_b[1] == 'f');
        },
    }
    assert(machine_a.skip(head.len() as int) =~= id_a + "\"\n"@);
    assert(machine_b.skip(head.len() as int) =~= id_b + "\"\n"@);
    lemma_quoted_text(id_a, "\"\n"@, id_b, "\"\n"@);
}

/// What was written is handed out as it is, character for character. Where it could not be written,
/// what is handed out is a comment, which says the reason in full.
pub proof fn law_written_text_is_handed_out_whole(text: Seq<char>, reason: Seq<char>)
    ensures
        file_text(Ok(text)) == text,
        file_text(Err(reason)).len() == 23 + reason.len(),
        file_text(Err(reason)).skip(23) == reason,
        file_text(Err(reason)).take(23) == "# serialization error: "@,
        file_text(Err(reason))[0] == '#',
{
    reveal_strlit("# serialization error: ");
    assert("# serialization error: "@.len() == 23);
    assert(file_text(Err(reason)).skip(23) =~= reason);
    assert(file_text(Err(reason)).take(23) =~= "# serialization error: "@);
}

/// The file of a plain id and URL is, line by line: the section of the API server with the URL between
/// double quotes and an empty line, where there is a URL; then the section of the machine with the id
/// between double quotes. The last line ends in a line break.
pub proof fn law_plain_file_line_by_line(interface_id: Seq<char>, api_url: Option<Seq<char>>)
    requires
        is_plain(interface_id),
        api_url matches Some(url) ==> is_plain(url),
    ensures
        ({
            let machine = seq![
                "[machine]"@,
                "interface-id = \""@ + interface_id + seq!['"'],
                Seq::empty(),
            ];
            lines(plain_agent_config(interface_id, api_url)) == match api_url {
                Some(url) => seq![
                    "[forge-system]"@,
                    "api-server = \""@ + url + seq!['"'],
                    Seq::empty(),
                ] + machine,
                None => machine,
            }
        }),
{
    reveal_strlit("\"\n");
    reveal_strlit("\"\n\n");
    reveal_strlit("[machine]\ninterface-id = \"");
    reveal_strlit("[forge-system]\napi-server = \"");
    reveal_strlit("[machine]");
    reveal_strlit("[forge-system]");
    reveal_strlit("interface-id = \"");
    reveal_strlit("api-server = \"");
    let machine = "[machine]\ninterface-id = \""@ + interface_id + "\"\n"@;
    lemma_section_lines("[machine]"@, "interface-id = \""@, interface_id);
    assert(machine =~= "[machine]"@ + seq!['\n'] + ("interface-id = \""@ + interface_id + seq!['"'])
        + seq!['\n'] + Seq::<char>::empty());
    match api_url {
        Some(url) => {
            let system = "[forge-system]"@ + seq!['\n'] + ("api-server = \""@ + url + seq!['"'])
                + seq!['\n'] + Seq::<char>::empty();
            lemma_section_lines("[forge-system]"@, "api-server = \""@, url);
            law_lines_of_two_texts(system, machine);
            assert(plain_agent_config(interface_id, api_url) =~= system + seq!['\n'] + machine);
        },
        None => {},
    }
}

/// The lines of a section with one key.
proof fn lemma_section_lines(heading: Seq<char>, key: Seq<char>, value: Seq<char>)
    requires
        is_one_line(heading),
        is_one_line(key),
        is_plain(value),
    ensures
        lines(heading + seq!['\n'] + (key + value + seq!['"']) + seq!['\n'] + Seq::<char>::empty())
            == seq![heading, key + value + seq!['"'], Seq::empty()],
{
    let field = key + value + seq!['"'];
    let none = Seq::<char>::empty();
    assert(is_one_line(value)) by {
        assert forall|k: int| 0 <= k < value.len() implies value[k] != '\n' by {
            assert(value[k] >= ' ');
        }
    }
    assert(is_one_line(field));
    law_one_line(heading);
    law_one_line(field);
    law_one_line(none);
    law_lines_of_two_texts(heading, field);
    law_lines_of_two_texts(heading + seq!['\n'] + field, none);
    assert(lines(heading + seq!['\n'] + field + seq!['\n'] + none) =~= seq![heading, field, none]);
}

} // verus!
