//! The shell lines that bring custom cloud-init snippets onto a DPU and run them there.

use crate::lines::{
    is_only_place, law_joined_lines_are_read_back, law_joined_texts_stand_alone,
    law_lines_of_two_texts, law_one_line, law_standing_alone_in_more, lines, stand_in_turn,
    stands_alone,
};
use crate::text::{join, joined};
use vstd::prelude::*;

verus! {

/// The staging path on the DPU's file system.
pub const STAGING_DIR: &'static str = "/opt/forge/custom-cloud-init.d/";

/// The command that downloads one file, given its name and its URL.
pub open spec fn download_command(file: (Seq<char>, Seq<char>)) -> Seq<char> {
    "curl -L --retry 5 --retry-all-errors -v -o /mnt"@ + STAGING_DIR@ + file.0 + " "@ + file.1
}

/// The commands that download the files, between their two marks.
pub open spec fn download_block(files: Seq<(Seq<char>, Seq<char>)>) -> Seq<char> {
    "\n# Start External Snippet Injection\nmkdir -p /mnt"@ + STAGING_DIR@ + "\n"@ + joined(
        files.map_values(|file: (Seq<char>, Seq<char>)| download_command(file)),
        "\n"@,
    ) + "\n# End External Snippet Injection\n"@
}

/// Writes the commands that download the files.
pub fn downloads(files: &Vec<(String, String)>) -> (block: String)
    ensures
        block@ == download_block(files.deep_view()),
{
    let mut commands: Vec<String> = Vec::new();
    let mut i: usize = 0;
    while i < files.len()
        invariant
            i <= files.len(),
            commands.len() == i,
            forall|k: int|
                0 <= k < i ==> #[trigger] commands.deep_view()[k] == download_command(
                    files.deep_view()[k],
                ),
        decreases files.len() - i,
    {
        let mut command: String = "curl -L --retry 5 --retry-all-errors -v -o /mnt".to_string();
        command.append(STAGING_DIR);
        command.append(files[i].0.as_str());
        command.append(" ");
        command.append(files[i].1.as_str());
        let ghost before = commands.deep_view();
        commands.push(command);
        proof {
            assert(commands.deep_view() =~= before.push(download_command(files.deep_view()[i as int])));
        }
        i = i + 1;
    }
    let mut block: String = "\n# Start External Snippet Injection\nmkdir -p /mnt".to_string();
    block.append(STAGING_DIR);
    block.append("\n");
    block.append(join(&commands, "\n").as_str());
    block.append("\n# End External Snippet Injection\n");
    proof {
        assert(commands.deep_view() =~= files.deep_view().map_values(
            |file: (Seq<char>, Seq<char>)| download_command(file),
        ));
    }
    block
}

/// The script that runs the snippets, line by line.
pub open spec fn execute_script() -> Seq<Seq<char>> {
    seq![
        "# --- Start Cloud-Init Snippet Execution ---"@,
        "CLOUD_DIR=\"/var/lib/cloud\""@,
        "BACKUP_DIR=\"/var/lib/cloud.original\""@,
        "FORGE_CFG=\"/etc/cloud/cloud.cfg.d/99-forge-snippet.cfg\""@,
        ""@,
        "# 1. Create a Time Capsule of the original state"@,
        "if [ ! -d \"$BACKUP_DIR\" ]; then cp -rp \"$CLOUD_DIR\" \"$BACKUP_DIR\"; fi"@,
        ""@,
        "if [ -d \""@ + STAGING_DIR@ + "\" ]; then"@,
        "    for snippet in "@ + STAGING_DIR@ + "*; do"@,
        "        [ -e \"$snippet\" ] || continue"@,
        "        echo \"Processing arbitrary snippet: $snippet\""@,
        ""@,
        "        # 2. Infiltrate global config and wipe active instance memory"@,
        "        cp \"$snippet\" \"$FORGE_CFG\""@,
        "        rm -rf \"${CLOUD_DIR}/instance\" \"${CLOUD_DIR}/instances\" \"${CLOUD_DIR}/data\""@,
        ""@,
        "        # 3. Chained execution: stop immediately if any stage fails"@,
        "        ("@,
        "            ip vrf exec mgmt cloud-init init --local && \\"@,
        "            ip vrf exec mgmt cloud-init modules --mode config && \\"@,
        "            ip vrf exec mgmt cloud-init modules --mode final"@,
        "        ) || echo \"ERROR: Cloud-init execution failed for $snippet. Skipping to cleanup.\""@,
        ""@,
        "        # 4. Clean up the injection point for the next loop iteration"@,
        "        rm -f \"$FORGE_CFG\""@,
        "    done"@,
        "fi"@,
        ""@,
        "# 5. Restore the 'Time Capsule' so the DPU state is preserved"@,
        "echo \"Restoring original cloud-init state...\""@,
        "rm -rf \"$CLOUD_DIR\" && mv \"$BACKUP_DIR\" \"$CLOUD_DIR\""@,
        "# --- End Cloud-Init Snippet Execution ---"@,
    ]
}

/// `prefix`, the staging path and `suffix` in one line.
fn around_staging_dir(prefix: &str, suffix: &str) -> (line: String)
    ensures
        line@ == prefix@ + STAGING_DIR@ + suffix@,
{
    let mut line: String = prefix.to_string();
    line.append(STAGING_DIR);
    line.append(suffix);
    line
}

/// Writes the lines of the script that runs the snippets.
pub fn execute_lines() -> (lines: Vec<String>)
    ensures
        lines.deep_view() == execute_script(),
{
    let lines: Vec<String> = vec![
        "# --- Start Cloud-Init Snippet Execution ---".to_string(),
        "CLOUD_DIR=\"/var/lib/cloud\"".to_string(),
        "BACKUP_DIR=\"/var/lib/cloud.original\"".to_string(),
        "FORGE_CFG=\"/etc/cloud/cloud.cfg.d/99-forge-snippet.cfg\"".to_string(),
        "".to_string(),
        "# 1. Create a Time Capsule of the original state".to_string(),
        "if [ ! -d \"$BACKUP_DIR\" ]; then cp -rp \"$CLOUD_DIR\" \"$BACKUP_DIR\"; fi".to_string(),
        "".to_string(),
        around_staging_dir("if [ -d \"", "\" ]; then"),
        around_staging_dir("    for snippet in ", "*; do"),
        "        [ -e \"$snippet\" ] || continue".to_string(),
        "        echo \"Processing arbitrary snippet: $snippet\"".to_string(),
        "".to_string(),
        "        # 2. Infiltrate global config and wipe active instance memory".to_string(),
        "        cp \"$snippet\" \"$FORGE_CFG\"".to_string(),
        "        rm -rf \"${CLOUD_DIR}/instance\" \"${CLOUD_DIR}/instances\" \"${CLOUD_DIR}/data\"".to_string(),
        "".to_string(),
        "        # 3. Chained execution: stop immediately if any stage fails".to_string(),
        "        (".to_string(),
        "            ip vrf exec mgmt cloud-init init --local && \\".to_string(),
        "            ip vrf exec mgmt cloud-init modules --mode config && \\".to_string(),
        "            ip vrf exec mgmt cloud-init modules --mode final".to_string(),
        "        ) || echo \"ERROR: Cloud-init execution failed for $snippet. Skipping to cleanup.\"".to_string(),
        "".to_string(),
        "        # 4. Clean up the injection point for the next loop iteration".to_string(),
        "        rm -f \"$FORGE_CFG\"".to_string(),
        "    done".to_string(),
        "fi".to_string(),
        "".to_string(),
        "# 5. Restore the 'Time Capsule' so the DPU state is preserved".to_string(),
        "echo \"Restoring original cloud-init state...\"".to_string(),
        "rm -rf \"$CLOUD_DIR\" && mv \"$BACKUP_DIR\" \"$CLOUD_DIR\"".to_string(),
        "# --- End Cloud-Init Snippet Execution ---".to_string(),
    ];
    proof {
        assert(lines.deep_view() =~= execute_script());
    }
    lines
}

/// Line `i` of a script that is put into YAML behind six columns: the first line stands where it is
/// put and an empty line stays empty; the others are moved six columns to the right.
pub open spec fn indented_line(lines: Seq<Seq<char>>, i: int) -> Seq<char> {
    if i == 0 || lines[i].len() == 0 {
        lines[i]
    } else {
        "      "@ + lines[i]
    }
}

/// The lines as one text, ready to be put into YAML.
pub open spec fn indented_block(lines: Seq<Seq<char>>) -> Seq<char> {
    joined(Seq::new(lines.len(), |i: int| indented_line(lines, i)), "\n"@)
}

/// Joins lines that go into existing YAML, where they have to be indented exactly.
pub fn indent(lines: &Vec<String>) -> (block: String)
    ensures
        block@ == indented_block(lines.deep_view()),
{
    let mut indented: Vec<String> = Vec::new();
    let mut i: usize = 0;
    while i < lines.len()
        invariant
            i <= lines.len(),
            indented.len() == i,
            forall|k: int|
                0 <= k < i ==> #[trigger] indented.deep_view()[k] == indented_line(
                    lines.deep_view(),
                    k,
                ),
        decreases lines.len() - i,
    {
        let line: String = if i == 0 || lines[i].as_str().is_empty() {
            lines[i].clone()
        } else {
            let mut line: String = "      ".to_string();
            line.append(lines[i].as_str());
            line
        };
        let ghost before = indented.deep_view();
        indented.push(line);
        proof {
            assert(indented.deep_view() =~= before.push(indented_line(lines.deep_view(), i as int)));
        }
        i = i + 1;
    }
    proof {
        let all = lines.deep_view();
        assert(indented.deep_view() =~= Seq::new(all.len(), |k: int| indented_line(all, k)));
    }
    join(&indented, "\n")
}

/// The two parts of the user data that custom snippets fill.
#[derive(Debug)]
pub struct SnippetBlocks {
    pub downloads: String,
    pub execute: String,
}

/// The part that downloads the snippets; empty where there are none.
pub open spec fn downloads_part(files: Seq<(Seq<char>, Seq<char>)>) -> Seq<char> {
    if files.len() == 0 {
        Seq::empty()
    } else {
        download_block(files)
    }
}

/// The part that runs the snippets; empty where there are none.
pub open spec fn execute_part(files: Seq<(Seq<char>, Seq<char>)>) -> Seq<char> {
    if files.len() == 0 {
        Seq::empty()
    } else {
        indented_block(execute_script())
    }
}

/// Writes the parts of the user data for the snippets that are on offer.
pub fn snippet_blocks(files: &Vec<(String, String)>) -> (blocks: SnippetBlocks)
    ensures
        blocks.downloads@ == downloads_part(files.deep_view()),
        blocks.execute@ == execute_part(files.deep_view()),
{
    if files.is_empty() {
        SnippetBlocks { downloads: String::new(), execute: String::new() }
    } else {
        SnippetBlocks { downloads: downloads(files), execute: indent(&execute_lines()) }
    }
}

/// A text without line breaks.
pub open spec fn is_one_line(text: Seq<char>) -> bool {
    forall|k: int| 0 <= k < text.len() ==> text[k] != '\n'
}

/// Every line of the text but the first is empty or starts with six spaces.
pub open spec fn is_indented(text: Seq<char>) -> bool {
    forall|p: int|
        0 <= p < text.len() && #[trigger] text[p] == '\n' ==> {
            ||| p + 1 == text.len()
            ||| text[p + 1] == '\n'
            ||| p + 7 <= text.len() && text.subrange(p + 1, p + 7) == "      "@
        }
}

/// Lines that are put into YAML this way are indented there: each of them but the first is empty or
/// starts with six spaces.
pub proof fn law_block_is_indented(lines: Seq<Seq<char>>)
    requires
        forall|i: int| 0 <= i < lines.len() ==> is_one_line(#[trigger] lines[i]),
    ensures
        is_indented(indented_block(lines)),
{
    reveal_strlit("      ");
    let indented = Seq::new(lines.len(), |i: int| indented_line(lines, i));
    assert forall|i: int| 0 <= i < indented.len() implies is_one_line(#[trigger] indented[i]) by {
        assert(is_one_line(lines[i]));
        assert(is_one_line("      "@));
    }
    assert forall|i: int| 0 < i < indented.len() && (#[trigger] indented[i]).len() > 0 implies
        indented[i].len() >= 6 && indented[i].take(6) == "      "@ by {
        assert(indented[i].take(6) =~= "      "@);
    }
    lemma_joined_is_indented(indented);
}

proof fn lemma_joined_is_indented(lines: Seq<Seq<char>>)
    requires
        forall|i: int| 0 <= i < lines.len() ==> is_one_line(#[trigger] lines[i]),
        forall|i: int|
            0 < i < lines.len() && (#[trigger] lines[i]).len() > 0 ==> lines[i].len() >= 6
                && lines[i].take(6) == "      "@,
    ensures
        is_indented(joined(lines, "\n"@)),
    decreases lines.len(),
{
    reveal_strlit("\n");
    if lines.len() == 1 {
        assert(is_one_line(lines[0]));
    } else if lines.len() > 1 {
        let front = joined(lines.drop_last(), "\n"@);
        let last = lines[lines.len() - 1];
        let text = joined(lines, "\n"@);
        lemma_joined_is_indented(lines.drop_last());
        assert(is_one_line(last));
        assert(text =~= front + "\n"@ + last);
        let n = front.len() as int;
        assert forall|p: int| 0 <= p < text.len() && #[trigger] text[p] == '\n' implies {
            ||| p + 1 == text.len()
            ||| text[p + 1] == '\n'
            ||| p + 7 <= text.len() && text.subrange(p + 1, p + 7) == "      "@
        } by {
            if p < n {
                assert(front[p] == '\n');
                if p + 1 < n && front[p + 1] != '\n' {
                    assert(text.subrange(p + 1, p + 7) =~= front.subrange(p + 1, p + 7));
                }
            } else if p == n {
                if last.len() > 0 {
                    assert(text.subrange(p + 1, p + 7) =~= last.take(6));
                }
            } else {
                assert(text[p] == last[p - n - 1]);
            }
        }
    }
}

/// No line of the script holds a line break.
proof fn lemma_script_lines()
    ensures
        forall|i: int| 0 <= i < execute_script().len() ==> is_one_line(#[trigger] execute_script()[i]),
{
    reveal_strlit("# --- Start Cloud-Init Snippet Execution ---");
    reveal_strlit("CLOUD_DIR=\"/var/lib/cloud\"");
    reveal_strlit("BACKUP_DIR=\"/var/lib/cloud.original\"");
    reveal_strlit("FORGE_CFG=\"/etc/cloud/cloud.cfg.d/99-forge-snippet.cfg\"");
    reveal_strlit("");
    reveal_strlit("# 1. Create a Time Capsule of the original state");
    reveal_strlit("if [ ! -d \"$BACKUP_DIR\" ]; then cp -rp \"$CLOUD_DIR\" \"$BACKUP_DIR\"; fi");
    reveal_strlit("if [ -d \"");
    reveal_strlit("\" ]; then");
    reveal_strlit("    for snippet in ");
    reveal_strlit("*; do");
    reveal_strlit("        [ -e \"$snippet\" ] || continue");
    reveal_strlit("        echo \"Processing arbitrary snippet: $snippet\"");
    reveal_strlit("        # 2. Infiltrate global config and wipe active instance memory");
    reveal_strlit("        cp \"$snippet\" \"$FORGE_CFG\"");
    reveal_strlit("        rm -rf \"${CLOUD_DIR}/instance\" \"${CLOUD_DIR}/instances\" \"${CLOUD_DIR}/data\"");
    reveal_strlit("        # 3. Chained execution: stop immediately if any stage fails");
    reveal_strlit("        (");
    reveal_strlit("            ip vrf exec mgmt cloud-init init --local && \\");
    reveal_strlit("            ip vrf exec mgmt cloud-init modules --mode config && \\");
    reveal_strlit("            ip vrf exec mgmt cloud-init modules --mode final");
    reveal_strlit("        ) || echo \"ERROR: Cloud-init execution failed for $snippet. Skipping to cleanup.\"");
    reveal_strlit("        # 4. Clean up the injection point for the next loop iteration");
    reveal_strlit("        rm -f \"$FORGE_CFG\"");
    reveal_strlit("    done");
    reveal_strlit("fi");
    reveal_strlit("# 5. Restore the 'Time Capsule' so the DPU state is preserved");
    reveal_strlit("echo \"Restoring original cloud-init state...\"");
    reveal_strlit("rm -rf \"$CLOUD_DIR\" && mv \"$BACKUP_DIR\" \"$CLOUD_DIR\"");
    reveal_strlit("# --- End Cloud-Init Snippet Execution ---");
    reveal_strlit("/opt/forge/custom-cloud-init.d/");
    assert(is_one_line("# --- Start Cloud-Init Snippet Execution ---"@));
    assert(is_one_line("CLOUD_DIR=\"/var/lib/cloud\""@));
    assert(is_one_line("BACKUP_DIR=\"/var/lib/cloud.original\""@));
    assert(is_one_line("FORGE_CFG=\"/etc/cloud/cloud.cfg.d/99-forge-snippet.cfg\""@));
    assert(is_one_line(""@));
    assert(is_one_line("# 1. Create a Time Capsule of the original state"@));
    assert(is_one_line("if [ ! -d \"$BACKUP_DIR\" ]; then cp -rp \"$CLOUD_DIR\" \"$BACKUP_DIR\"; fi"@));
    assert(is_one_line("if [ -d \""@));
    assert(is_one_line("\" ]; then"@));
    assert(is_one_line("    for snippet in "@));
    assert(is_one_line("*; do"@));
    assert(is_one_line("        [ -e \"$snippet\" ] || continue"@));
    assert(is_one_line("        echo \"Processing arbitrary snippet: $snippet\""@));
    assert(is_one_line("        # 2. Infiltrate global config and wipe active instance memory"@));
    assert(is_one_line("        cp \"$snippet\" \"$FORGE_CFG\""@));
    assert(is_one_line("        rm -rf \"${CLOUD_DIR}/instance\" \"${CLOUD_DIR}/instances\" \"${CLOUD_DIR}/data\""@));
    assert(is_one_line("        # 3. Chained execution: stop immediately if any stage fails"@));
    assert(is_one_line("        ("@));
    assert(is_one_line("            ip vrf exec mgmt cloud-init init --local && \\"@));
    assert(is_one_line("            ip vrf exec mgmt cloud-init modules --mode config && \\"@));
    assert(is_one_line("            ip vrf exec mgmt cloud-init modules --mode final"@));
    assert(is_one_line("        ) || echo \"ERROR: Cloud-init execution failed for $snippet. Skipping to cleanup.\""@));
    assert(is_one_line("        # 4. Clean up the injection point for the next loop iteration"@));
    assert(is_one_line("        rm -f \"$FORGE_CFG\""@));
    assert(is_one_line("    done"@));
    assert(is_one_line("fi"@));
    assert(is_one_line("# 5. Restore the 'Time Capsule' so the DPU state is preserved"@));
    assert(is_one_line("echo \"Restoring original cloud-init state...\""@));
    assert(is_one_line("rm -rf \"$CLOUD_DIR\" && mv \"$BACKUP_DIR\" \"$CLOUD_DIR\""@));
    assert(is_one_line("# --- End Cloud-Init Snippet Execution ---"@));
    assert(is_one_line("/opt/forge/custom-cloud-init.d/"@));
}

/// The part of the user data that runs the snippets is indented as the YAML around it asks for.
pub proof fn law_execute_part_is_indented(files: Seq<(Seq<char>, Seq<char>)>)
    ensures
        is_indented(execute_part(files)),
{
    lemma_script_lines();
    law_block_is_indented(execute_script());
}

/// What is put into YAML holds the given lines, each behind six spaces but for the first and for empty
/// ones.
pub proof fn law_indented_lines_are_read_back(given: Seq<Seq<char>>)
    requires
        given.len() > 0,
        forall|i: int| 0 <= i < given.len() ==> is_one_line(#[trigger] given[i]),
    ensures
        lines(indented_block(given)).len() == given.len(),
        lines(indented_block(given))[0] == given[0],
        forall|i: int|
            0 < i < given.len() ==> #[trigger] lines(indented_block(given))[i] == if given[i].len()
                == 0 {
                Seq::empty()
            } else {
                "      "@ + given[i]
            },
{
    reveal_strlit("      ");
    let indented = Seq::new(given.len(), |i: int| indented_line(given, i));
    assert forall|i: int| 0 <= i < indented.len() implies is_one_line(#[trigger] indented[i]) by {
        assert(is_one_line(given[i]));
        assert(is_one_line("      "@));
    }
    law_joined_lines_are_read_back(indented);
    assert forall|i: int| 0 < i < given.len() implies #[trigger] lines(indented_block(given))[i]
        == if given[i].len() == 0 {
        Seq::empty()
    } else {
        "      "@ + given[i]
    } by {
        assert(lines(indented_block(given))[i] == indented_line(given, i));
        assert(given[i].len() == 0 ==> given[i] =~= Seq::empty());
    }
}

/// One line more is put behind a line break and, unless it is empty, six spaces; the lines before it
/// are not touched, and a line of its own stands as it is.
pub proof fn law_indenting_one_more(given: Seq<Seq<char>>, line: Seq<char>)
    ensures
        indented_block(Seq::empty()).len() == 0,
        indented_block(seq![line]) == line,
        given.len() > 0 && line.len() > 0 ==> indented_block(given.push(line)) == indented_block(given)
            + "\n      "@ + line,
        given.len() > 0 && line.len() == 0 ==> indented_block(given.push(line)) == indented_block(given)
            + "\n"@,
{
    reveal_strlit("\n");
    reveal_strlit("      ");
    reveal_strlit("\n      ");
    assert("\n"@ + "      "@ =~= "\n      "@);
    let before = Seq::new(given.len(), |i: int| indented_line(given, i));
    let more = given.push(line);
    let after = Seq::new(more.len(), |i: int| indented_line(more, i));
    assert(after.drop_last() =~= before);
    let one = seq![line];
    assert(Seq::new(one.len(), |i: int| indented_line(one, i))[0] == line);
    if given.len() > 0 {
        assert(indented_block(more) == indented_block(given) + "\n"@ + indented_line(
            more,
            given.len() as int,
        ));
        if line.len() > 0 {
            assert(indented_block(more) =~= indented_block(given) + "\n      "@ + line);
        } else {
            assert(indented_block(more) =~= indented_block(given) + "\n"@);
        }
    }
}

/// With files on offer both parts are filled: the one downloads these files, the other runs the
/// script. Without files both are empty.
pub proof fn law_parts_are_filled_together(files: Seq<(Seq<char>, Seq<char>)>)
    ensures
        files.len() == 0 ==> downloads_part(files).len() == 0 && execute_part(files).len() == 0,
        files.len() > 0 ==> downloads_part(files) == download_block(files),
        files.len() > 0 ==> execute_part(files) == indented_block(execute_script()),
        files.len() > 0 ==> downloads_part(files).len() > 0 && execute_part(files).len() > 0,
{
    reveal_strlit("\n");
    if files.len() > 0 {
        law_block_holds_the_lines(files);
        lemma_script_places();
        if execute_part(files).len() == 0 {
            assert(lines(execute_part(files)).len() == 1);
        }
    }
}

/// A list of one file makes one download command, between the two marks.
pub proof fn law_one_download(file: (Seq<char>, Seq<char>))
    ensures
        download_block(seq![file])
            == "\n# Start External Snippet Injection\nmkdir -p /mnt/opt/forge/custom-cloud-init.d/\ncurl -L --retry 5 --retry-all-errors -v -o /mnt/opt/forge/custom-cloud-init.d/"@
            + file.0 + " "@ + file.1 + "\n# End External Snippet Injection\n"@,
{
    let files = seq![file];
    assert(files.map_values(|file: (Seq<char>, Seq<char>)| download_command(file))[0]
        == download_command(file));
    lemma_download_texts();
    assert(download_block(files)
        =~= "\n# Start External Snippet Injection\nmkdir -p /mnt/opt/forge/custom-cloud-init.d/\ncurl -L --retry 5 --retry-all-errors -v -o /mnt/opt/forge/custom-cloud-init.d/"@
        + file.0 + " "@ + file.1 + "\n# End External Snippet Injection\n"@);
}

/// A list of no files makes no command between the two marks.
pub proof fn law_no_download()
    ensures
        download_block(Seq::empty())
            == "\n# Start External Snippet Injection\nmkdir -p /mnt/opt/forge/custom-cloud-init.d/\n\n# End External Snippet Injection\n"@,
{
    reveal_strlit("\n");
    reveal_strlit("/opt/forge/custom-cloud-init.d/");
    reveal_strlit("\n# Start External Snippet Injection\nmkdir -p /mnt");
    reveal_strlit("\n# End External Snippet Injection\n");
    reveal_strlit("\n# Start External Snippet Injection\nmkdir -p /mnt/opt/forge/custom-cloud-init.d/\n\n# End External Snippet Injection\n");
    let none = Seq::<(Seq<char>, Seq<char>)>::empty();
    assert(none.map_values(|file: (Seq<char>, Seq<char>)| download_command(file)).len() == 0);
    assert(download_block(none)
        =~= "\n# Start External Snippet Injection\nmkdir -p /mnt/opt/forge/custom-cloud-init.d/\n\n# End External Snippet Injection\n"@);
}

/// One file more adds its command behind those that are there, and changes nothing else.
pub proof fn law_one_more_download(files: Seq<(Seq<char>, Seq<char>)>, file: (Seq<char>, Seq<char>))
    requires
        files.len() > 0,
    ensures
        ({
            let end = "\n# End External Snippet Injection\n"@;
            let before = download_block(files);
            let body = before.take(before.len() - end.len());
            &&& before == body + end
            &&& download_block(files.push(file)) == body
                + "\ncurl -L --retry 5 --retry-all-errors -v -o /mnt/opt/forge/custom-cloud-init.d/"@
                + file.0 + " "@ + file.1 + end
        }),
{
    let end = "\n# End External Snippet Injection\n"@;
    let before = download_block(files);
    let body = before.take(before.len() - end.len());
    let commands = files.map_values(|file: (Seq<char>, Seq<char>)| download_command(file));
    let more = files.push(file).map_values(|file: (Seq<char>, Seq<char>)| download_command(file));
    assert(more.drop_last() =~= commands);
    assert(more.last() == download_command(file));
    lemma_download_texts();
    assert(before =~= body + end);
    let head = "\n# Start External Snippet Injection\nmkdir -p /mnt"@ + STAGING_DIR@ + "\n"@;
    assert(body =~= head + joined(commands, "\n"@));
    assert(download_block(files.push(file)) =~= body
        + "\ncurl -L --retry 5 --retry-all-errors -v -o /mnt/opt/forge/custom-cloud-init.d/"@ + file.0
        + " "@ + file.1 + end);
}

/// How the texts around the names and URLs fit together.
proof fn lemma_download_texts()
    ensures
        "\n"@ =~= seq!['\n'],
        "curl -L --retry 5 --retry-all-errors -v -o /mnt"@ + STAGING_DIR@
            =~= "curl -L --retry 5 --retry-all-errors -v -o /mnt/opt/forge/custom-cloud-init.d/"@,
        "\n"@ + "curl -L --retry 5 --retry-all-errors -v -o /mnt/opt/forge/custom-cloud-init.d/"@
            =~= "\ncurl -L --retry 5 --retry-all-errors -v -o /mnt/opt/forge/custom-cloud-init.d/"@,
        "\n# Start External Snippet Injection\nmkdir -p /mnt"@ + STAGING_DIR@ + "\n"@
            =~= seq!['\n'] + "# Start External Snippet Injection"@ + seq!['\n']
            + "mkdir -p /mnt/opt/forge/custom-cloud-init.d/"@ + seq!['\n'],
        "\n# Start External Snippet Injection\nmkdir -p /mnt"@ + STAGING_DIR@ + "\n"@
            + "curl -L --retry 5 --retry-all-errors -v -o /mnt/opt/forge/custom-cloud-init.d/"@
            =~= "\n# Start External Snippet Injection\nmkdir -p /mnt/opt/forge/custom-cloud-init.d/\ncurl -L --retry 5 --retry-all-errors -v -o /mnt/opt/forge/custom-cloud-init.d/"@,
        "\n# End External Snippet Injection\n"@ =~= seq!['\n'] + "# End External Snippet Injection"@
            + seq!['\n'],
        is_one_line("# Start External Snippet Injection"@),
        is_one_line("mkdir -p /mnt/opt/forge/custom-cloud-init.d/"@),
        is_one_line("# End External Snippet Injection"@),
        is_one_line("curl -L --retry 5 --retry-all-errors -v -o /mnt/opt/forge/custom-cloud-init.d/"@),
        "curl -L --retry 5 --retry-all-errors -v -o /mnt/opt/forge/custom-cloud-init.d/"@.len() > 5,
        "curl -L --retry 5 --retry-all-errors -v -o /mnt/opt/forge/custom-cloud-init.d/"@.take(5)
            =~= "curl "@,
        "curl "@.len() == 5,
        "curl "@[0] == 'c',
        "# Start External Snippet Injection"@[0] == '#',
        "mkdir -p /mnt/opt/forge/custom-cloud-init.d/"@[0] == 'm',
        "# End External Snippet Injection"@[0] == '#',
        is_one_line(" "@),
{
    reveal_strlit("\n");
    reveal_strlit(" ");
    reveal_strlit("curl ");
    reveal_strlit("/opt/forge/custom-cloud-init.d/");
    reveal_strlit("curl -L --retry 5 --retry-all-errors -v -o /mnt");
    reveal_strlit("curl -L --retry 5 --retry-all-errors -v -o /mnt/opt/forge/custom-cloud-init.d/");
    reveal_strlit("\ncurl -L --retry 5 --retry-all-errors -v -o /mnt/opt/forge/custom-cloud-init.d/");
    reveal_strlit("\n# Start External Snippet Injection\nmkdir -p /mnt");
    reveal_strlit("\n# Start External Snippet Injection\nmkdir -p /mnt/opt/forge/custom-cloud-init.d/\ncurl -L --retry 5 --retry-all-errors -v -o /mnt/opt/forge/custom-cloud-init.d/");
    reveal_strlit("# Start External Snippet Injection");
    reveal_strlit("mkdir -p /mnt/opt/forge/custom-cloud-init.d/");
    reveal_strlit("\n# End External Snippet Injection\n");
    reveal_strlit("# End External Snippet Injection");
}

/// Every file is downloaded: the command that fetches its URL to the staging path of its name stands
/// in the part for downloads, from the start of a line to the end of one.
pub proof fn law_every_file_is_downloaded(files: Seq<(Seq<char>, Seq<char>)>, i: int)
    requires
        0 <= i < files.len(),
    ensures
        stands_alone(
            downloads_part(files),
            "curl -L --retry 5 --retry-all-errors -v -o /mnt/opt/forge/custom-cloud-init.d/"@
                + files[i].0 + " "@ + files[i].1,
        ),
{
    let commands = files.map_values(|file: (Seq<char>, Seq<char>)| download_command(file));
    let command = "curl -L --retry 5 --retry-all-errors -v -o /mnt/opt/forge/custom-cloud-init.d/"@
        + files[i].0 + " "@ + files[i].1;
    let body = joined(commands, "\n"@);
    let head = "\n# Start External Snippet Injection\nmkdir -p /mnt"@ + STAGING_DIR@ + "\n"@;
    let end = "\n# End External Snippet Injection\n"@;
    lemma_download_texts();
    assert(commands[i] == command);
    law_joined_texts_stand_alone(commands, i);
    law_standing_alone_in_more(head, body, end, command);
    assert(downloads_part(files) == head + body + end);
}

/// A line that calls `curl`.
pub open spec fn is_curl_line(line: Seq<char>) -> bool {
    line.len() >= 5 && line.take(5) == "curl "@
}

/// Where no name and no URL holds a line break, the commands that download the files are, line by
/// line: the mark at the start, the command that makes the staging directory, one `curl` command for
/// each file in the order of the files, and the mark at the end. There are as many lines with `curl`
/// as there are files.
pub proof fn law_downloads_line_by_line(files: Seq<(Seq<char>, Seq<char>)>)
    requires
        files.len() > 0,
        forall|i: int|
            0 <= i < files.len() ==> is_one_line((#[trigger] files[i]).0) && is_one_line(files[i].1),
    ensures
        ({
            let block = lines(download_block(files));
            &&& block.len() == files.len() + 5
            &&& block[0].len() == 0
            &&& block[1] == "# Start External Snippet Injection"@
            &&& block[2] == "mkdir -p /mnt/opt/forge/custom-cloud-init.d/"@
            &&& forall|i: int|
                0 <= i < files.len() ==> block[3 + i]
                    == "curl -L --retry 5 --retry-all-errors -v -o /mnt/opt/forge/custom-cloud-init.d/"@
                    + (#[trigger] files[i]).0 + " "@ + files[i].1
            &&& block[files.len() as int + 3] == "# End External Snippet Injection"@
            &&& block[files.len() as int + 4].len() == 0
            &&& block.filter(|line: Seq<char>| is_curl_line(line)).len() == files.len()
        }),
{
    let fetch = "curl -L --retry 5 --retry-all-errors -v -o /mnt/opt/forge/custom-cloud-init.d/"@;
    let commands = files.map_values(|file: (Seq<char>, Seq<char>)| download_command(file));
    lemma_lines_of_downloads(files);
    assert forall|i: int| 0 <= i < files.len() implies #[trigger] commands[i] == fetch + files[i].0
        + " "@ + files[i].1 by {
        lemma_download_texts();
    }
    lemma_curl_lines(files);
}

/// The lines of the commands that download the files.
proof fn lemma_lines_of_downloads(files: Seq<(Seq<char>, Seq<char>)>)
    requires
        files.len() > 0,
        forall|i: int|
            0 <= i < files.len() ==> is_one_line((#[trigger] files[i]).0) && is_one_line(files[i].1),
    ensures
        lines(download_block(files)) == seq![
            Seq::empty(),
            "# Start External Snippet Injection"@,
            "mkdir -p /mnt/opt/forge/custom-cloud-init.d/"@,
        ] + files.map_values(|file: (Seq<char>, Seq<char>)| download_command(file)) + seq![
            "# End External Snippet Injection"@,
            Seq::empty(),
        ],
{
    let fetch = "curl -L --retry 5 --retry-all-errors -v -o /mnt/opt/forge/custom-cloud-init.d/"@;
    let commands = files.map_values(|file: (Seq<char>, Seq<char>)| download_command(file));
    let body = joined(commands, "\n"@);
    let start = "# Start External Snippet Injection"@;
    let stage = "mkdir -p /mnt/opt/forge/custom-cloud-init.d/"@;
    let end = "# End External Snippet Injection"@;
    let none = Seq::<char>::empty();
    lemma_download_texts();
    assert forall|i: int| 0 <= i < commands.len() implies is_one_line(#[trigger] commands[i]) by {
        assert(commands[i] == fetch + files[i].0 + " "@ + files[i].1);
        assert(is_one_line(files[i].0) && is_one_line(files[i].1));
    }
    law_joined_lines_are_read_back(commands);
    law_one_line(none);
    law_one_line(start);
    law_one_line(stage);
    law_one_line(end);
    let a = none + seq!['\n'] + start;
    let b = a + seq!['\n'] + stage;
    let c = b + seq!['\n'] + body;
    let d = c + seq!['\n'] + end;
    law_lines_of_two_texts(none, start);
    law_lines_of_two_texts(a, stage);
    law_lines_of_two_texts(b, body);
    law_lines_of_two_texts(c, end);
    law_lines_of_two_texts(d, none);
    assert(download_block(files) =~= d + seq!['\n'] + none);
    assert(lines(download_block(files)) =~= seq![none, start, stage] + commands + seq![end, none]);
}

/// There are as many lines with `curl` as there are files.
proof fn lemma_curl_lines(files: Seq<(Seq<char>, Seq<char>)>)
    ensures
        (seq![
            Seq::empty(),
            "# Start External Snippet Injection"@,
            "mkdir -p /mnt/opt/forge/custom-cloud-init.d/"@,
        ] + files.map_values(|file: (Seq<char>, Seq<char>)| download_command(file)) + seq![
            "# End External Snippet Injection"@,
            Seq::empty(),
        ]).filter(|line: Seq<char>| is_curl_line(line)).len() == files.len(),
{
    let fetch = "curl -L --retry 5 --retry-all-errors -v -o /mnt/opt/forge/custom-cloud-init.d/"@;
    let commands = files.map_values(|file: (Seq<char>, Seq<char>)| download_command(file));
    let head = seq![
        Seq::empty(),
        "# Start External Snippet Injection"@,
        "mkdir -p /mnt/opt/forge/custom-cloud-init.d/"@,
    ];
    let tail = seq!["# End External Snippet Injection"@, Seq::empty()];
    let is_curl = |line: Seq<char>| is_curl_line(line);
    lemma_download_texts();
    assert forall|i: int| 0 <= i < commands.len() implies is_curl(#[trigger] commands[i]) by {
        assert(commands[i] == fetch + files[i].0 + " "@ + files[i].1);
        assert(commands[i].take(5) =~= fetch.take(5));
    }
    assert forall|line: Seq<char>| line.len() > 0 && line[0] != 'c' implies !#[trigger] is_curl_line(
        line,
    ) by {
        if is_curl_line(line) {
            assert(line.take(5)[0] == line[0]);
        }
    }
    lemma_filter_all(commands, is_curl);
    lemma_filter_none(head, is_curl);
    lemma_filter_none(tail, is_curl);
    Seq::filter_distributes_over_add(head + commands, tail, is_curl);
    Seq::filter_distributes_over_add(head, commands, is_curl);
}

proof fn lemma_filter_all(given: Seq<Seq<char>>, wanted: spec_fn(Seq<char>) -> bool)
    requires
        forall|i: int| 0 <= i < given.len() ==> wanted(#[trigger] given[i]),
    ensures
        given.filter(wanted) == given,
    decreases given.len(),
{
    reveal(Seq::filter);
    if given.len() > 0 {
        lemma_filter_all(given.drop_last(), wanted);
        assert(given.drop_last().push(given.last()) =~= given);
    }
}

proof fn lemma_filter_none(given: Seq<Seq<char>>, wanted: spec_fn(Seq<char>) -> bool)
    requires
        forall|i: int| 0 <= i < given.len() ==> !wanted(#[trigger] given[i]),
    ensures
        given.filter(wanted).len() == 0,
    decreases given.len(),
{
    reveal(Seq::filter);
    if given.len() > 0 {
        lemma_filter_none(given.drop_last(), wanted);
    }
}

/// How long the lines of the script are, and that lines of one length differ.
proof fn lemma_script_texts()
    ensures
        "# --- Start Cloud-Init Snippet Execution ---"@.len() == 44,
        "CLOUD_DIR=\"/var/lib/cloud\""@.len() == 26,
        "BACKUP_DIR=\"/var/lib/cloud.original\""@.len() == 36,
        "FORGE_CFG=\"/etc/cloud/cloud.cfg.d/99-forge-snippet.cfg\""@.len() == 55,
        "# 1. Create a Time Capsule of the original state"@.len() == 48,
        "if [ ! -d \"$BACKUP_DIR\" ]; then cp -rp \"$CLOUD_DIR\" \"$BACKUP_DIR\"; fi"@.len() == 69,
        "if [ -d \"/opt/forge/custom-cloud-init.d/\" ]; then"@.len() == 49,
        "    for snippet in /opt/forge/custom-cloud-init.d/*; do"@.len() == 55,
        "        [ -e \"$snippet\" ] || continue"@.len() == 37,
        "        echo \"Processing arbitrary snippet: $snippet\""@.len() == 53,
        "        # 2. Infiltrate global config and wipe active instance memory"@.len() == 69,
        "        cp \"$snippet\" \"$FORGE_CFG\""@.len() == 34,
        "        rm -rf \"${CLOUD_DIR}/instance\" \"${CLOUD_DIR}/instances\" \"${CLOUD_DIR}/data\""@.len() == 83,
        "        # 3. Chained execution: stop immediately if any stage fails"@.len() == 67,
        "        ("@.len() == 9,
        "            ip vrf exec mgmt cloud-init init --local && \\"@.len() == 57,
        "            ip vrf exec mgmt cloud-init modules --mode config && \\"@.len() == 66,
        "            ip vrf exec mgmt cloud-init modules --mode final"@.len() == 60,
        "        ) || echo \"ERROR: Cloud-init execution failed for $snippet. Skipping to cleanup.\""@.len() == 89,
        "        # 4. Clean up the injection point for the next loop iteration"@.len() == 69,
        "        rm -f \"$FORGE_CFG\""@.len() == 26,
        "    done"@.len() == 8,
        "fi"@.len() == 2,
        "# 5. Restore the 'Time Capsule' so the DPU state is preserved"@.len() == 61,
        "echo \"Restoring original cloud-init state...\""@.len() == 45,
        "rm -rf \"$CLOUD_DIR\" && mv \"$BACKUP_DIR\" \"$CLOUD_DIR\""@.len() == 52,
        "# --- End Cloud-Init Snippet Execution ---"@.len() == 42,
        "CLOUD_DIR=\"/var/lib/cloud\""@ != "        rm -f \"$FORGE_CFG\""@,
        "FORGE_CFG=\"/etc/cloud/cloud.cfg.d/99-forge-snippet.cfg\""@ != "    for snippet in /opt/forge/custom-cloud-init.d/*; do"@,
        "if [ ! -d \"$BACKUP_DIR\" ]; then cp -rp \"$CLOUD_DIR\" \"$BACKUP_DIR\"; fi"@ != "        # 2. Infiltrate global config and wipe active instance memory"@,
        "if [ ! -d \"$BACKUP_DIR\" ]; then cp -rp \"$CLOUD_DIR\" \"$BACKUP_DIR\"; fi"@ != "        # 4. Clean up the injection point for the next loop iteration"@,
        "        # 2. Infiltrate global config and wipe active instance memory"@ != "        # 4. Clean up the injection point for the next loop iteration"@,
        ""@.len() == 0,
        "if [ -d \""@ + STAGING_DIR@ + "\" ]; then"@ == "if [ -d \"/opt/forge/custom-cloud-init.d/\" ]; then"@,
        "    for snippet in "@ + STAGING_DIR@ + "*; do"@ == "    for snippet in /opt/forge/custom-cloud-init.d/*; do"@,
{
    reveal_strlit("# --- Start Cloud-Init Snippet Execution ---");
    reveal_strlit("CLOUD_DIR=\"/var/lib/cloud\"");
    reveal_strlit("BACKUP_DIR=\"/var/lib/cloud.original\"");
    reveal_strlit("FORGE_CFG=\"/etc/cloud/cloud.cfg.d/99-forge-snippet.cfg\"");
    reveal_strlit("# 1. Create a Time Capsule of the original state");
    reveal_strlit("if [ ! -d \"$BACKUP_DIR\" ]; then cp -rp \"$CLOUD_DIR\" \"$BACKUP_DIR\"; fi");
    reveal_strlit("if [ -d \"/opt/forge/custom-cloud-init.d/\" ]; then");
    reveal_strlit("    for snippet in /opt/forge/custom-cloud-init.d/*; do");
    reveal_strlit("        [ -e \"$snippet\" ] || continue");
    reveal_strlit("        echo \"Processing arbitrary snippet: $snippet\"");
    reveal_strlit("        # 2. Infiltrate global config and wipe active instance memory");
    reveal_strlit("        cp \"$snippet\" \"$FORGE_CFG\"");
    reveal_strlit("        rm -rf \"${CLOUD_DIR}/instance\" \"${CLOUD_DIR}/instances\" \"${CLOUD_DIR}/data\"");
    reveal_strlit("        # 3. Chained execution: stop immediately if any stage fails");
    reveal_strlit("        (");
    reveal_strlit("            ip vrf exec mgmt cloud-init init --local && \\");
    reveal_strlit("            ip vrf exec mgmt cloud-init modules --mode config && \\");
    reveal_strlit("            ip vrf exec mgmt cloud-init modules --mode final");
    reveal_strlit("        ) || echo \"ERROR: Cloud-init execution failed for $snippet. Skipping to cleanup.\"");
    reveal_strlit("        # 4. Clean up the injection point for the next loop iteration");
    reveal_strlit("        rm -f \"$FORGE_CFG\"");
    reveal_strlit("    done");
    reveal_strlit("fi");
    reveal_strlit("# 5. Restore the 'Time Capsule' so the DPU state is preserved");
    reveal_strlit("echo \"Restoring original cloud-init state...\"");
    reveal_strlit("rm -rf \"$CLOUD_DIR\" && mv \"$BACKUP_DIR\" \"$CLOUD_DIR\"");
    reveal_strlit("# --- End Cloud-Init Snippet Execution ---");
    reveal_strlit("");
    reveal_strlit("if [ -d \"");
    reveal_strlit("\" ]; then");
    reveal_strlit("    for snippet in ");
    reveal_strlit("*; do");
    reveal_strlit("/opt/forge/custom-cloud-init.d/");
    assert("CLOUD_DIR=\"/var/lib/cloud\""@[0] != "        rm -f \"$FORGE_CFG\""@[0]);
    assert("FORGE_CFG=\"/etc/cloud/cloud.cfg.d/99-forge-snippet.cfg\""@[0] != "    for snippet in /opt/forge/custom-cloud-init.d/*; do"@[0]);
    assert("if [ ! -d \"$BACKUP_DIR\" ]; then cp -rp \"$CLOUD_DIR\" \"$BACKUP_DIR\"; fi"@[0] != "        # 2. Infiltrate global config and wipe active instance memory"@[0]);
    assert("if [ ! -d \"$BACKUP_DIR\" ]; then cp -rp \"$CLOUD_DIR\" \"$BACKUP_DIR\"; fi"@[0] != "        # 4. Clean up the injection point for the next loop iteration"@[0]);
    assert("        # 2. Infiltrate global config and wipe active instance memory"@[10] != "        # 4. Clean up the injection point for the next loop iteration"@[10]);
    assert("if [ -d \""@ + STAGING_DIR@ + "\" ]; then"@ =~= "if [ -d \"/opt/forge/custom-cloud-init.d/\" ]; then"@);
    assert("    for snippet in "@ + STAGING_DIR@ + "*; do"@ =~= "    for snippet in /opt/forge/custom-cloud-init.d/*; do"@);
}

/// Where the lines of the script stand.
proof fn lemma_script_places()
    ensures
        execute_script().len() == 33,
        is_only_place(execute_script(), "# --- Start Cloud-Init Snippet Execution ---"@, 0),
        is_only_place(execute_script(), "CLOUD_DIR=\"/var/lib/cloud\""@, 1),
        is_only_place(execute_script(), "BACKUP_DIR=\"/var/lib/cloud.original\""@, 2),
        is_only_place(execute_script(), "FORGE_CFG=\"/etc/cloud/cloud.cfg.d/99-forge-snippet.cfg\""@, 3),
        execute_script()[4] == ""@,
        is_only_place(execute_script(), "# 1. Create a Time Capsule of the original state"@, 5),
        is_only_place(execute_script(), "if [ ! -d \"$BACKUP_DIR\" ]; then cp -rp \"$CLOUD_DIR\" \"$BACKUP_DIR\"; fi"@, 6),
        execute_script()[7] == ""@,
        is_only_place(execute_script(), "if [ -d \"/opt/forge/custom-cloud-init.d/\" ]; then"@, 8),
        is_only_place(execute_script(), "    for snippet in /opt/forge/custom-cloud-init.d/*; do"@, 9),
        is_only_place(execute_script(), "        [ -e \"$snippet\" ] || continue"@, 10),
        is_only_place(execute_script(), "        echo \"Processing arbitrary snippet: $snippet\""@, 11),
        execute_script()[12] == ""@,
        is_only_place(execute_script(), "        # 2. Infiltrate global config and wipe active instance memory"@, 13),
        is_only_place(execute_script(), "        cp \"$snippet\" \"$FORGE_CFG\""@, 14),
        is_only_place(execute_script(), "        rm -rf \"${CLOUD_DIR}/instance\" \"${CLOUD_DIR}/instances\" \"${CLOUD_DIR}/data\""@, 15),
        execute_script()[16] == ""@,
        is_only_place(execute_script(), "        # 3. Chained execution: stop immediately if any stage fails"@, 17),
        is_only_place(execute_script(), "        ("@, 18),
        is_only_place(execute_script(), "            ip vrf exec mgmt cloud-init init --local && \\"@, 19),
        is_only_place(execute_script(), "            ip vrf exec mgmt cloud-init modules --mode config && \\"@, 20),
        is_only_place(execute_script(), "            ip vrf exec mgmt cloud-init modules --mode final"@, 21),
        is_only_place(execute_script(), "        ) || echo \"ERROR: Cloud-init execution failed for $snippet. Skipping to cleanup.\""@, 22),
        execute_script()[23] == ""@,
        is_only_place(execute_script(), "        # 4. Clean up the injection point for the next loop iteration"@, 24),
        is_only_place(execute_script(), "        rm -f \"$FORGE_CFG\""@, 25),
        is_only_place(execute_script(), "    done"@, 26),
        is_only_place(execute_script(), "fi"@, 27),
        execute_script()[28] == ""@,
        is_only_place(execute_script(), "# 5. Restore the 'Time Capsule' so the DPU state is preserved"@, 29),
        is_only_place(execute_script(), "echo \"Restoring original cloud-init state...\""@, 30),
        is_only_place(execute_script(), "rm -rf \"$CLOUD_DIR\" && mv \"$BACKUP_DIR\" \"$CLOUD_DIR\""@, 31),
        is_only_place(execute_script(), "# --- End Cloud-Init Snippet Execution ---"@, 32),
{
    lemma_script_texts();
}

/// A line that has one place in the script has the same place in the text that is put into YAML,
/// six columns to the right.
proof fn lemma_place_in_yaml(files: Seq<(Seq<char>, Seq<char>)>, line: Seq<char>, at: int)
    requires
        files.len() > 0,
        0 < at,
        line.len() > 0,
        is_only_place(execute_script(), line, at),
    ensures
        is_only_place(lines(execute_part(files)), "      "@ + line, at),
{
    let script = execute_script();
    let text_lines = lines(execute_part(files));
    law_block_holds_the_lines(files);
    lemma_script_places();
    reveal_strlit("      ");
    reveal_strlit("# --- Start Cloud-Init Snippet Execution ---");
    assert("# --- Start Cloud-Init Snippet Execution ---"@[0] == '#');
    assert(("      "@ + line)[0] == ' ');
    assert forall|i: int| 0 <= i < text_lines.len() && #[trigger] text_lines[i] == "      "@
        + line implies i == at by {
        if i > 0 && script[i].len() > 0 {
            assert(text_lines[i] == "      "@ + script[i]);
            assert(text_lines[i].skip(6) =~= script[i]);
            assert(("      "@ + line).skip(6) =~= line);
        }
    }
}

/// Lines that stand in turn in the script do so in the text that is put into YAML.
proof fn lemma_in_turn_in_yaml(
    files: Seq<(Seq<char>, Seq<char>)>,
    steps: Seq<Seq<char>>,
    places: Seq<int>,
)
    requires
        files.len() > 0,
        places.len() == steps.len(),
        forall|k: int|
            0 <= k < steps.len() ==> #[trigger] places[k] > 0 && steps[k].len() > 0 && is_only_place(
                execute_script(),
                steps[k],
                places[k],
            ),
        forall|j: int, k: int| 0 <= j < k < steps.len() ==> #[trigger] places[j] < #[trigger] places[k],
    ensures
        stand_in_turn(
            lines(execute_part(files)),
            steps.map_values(|line: Seq<char>| "      "@ + line),
        ),
{
    let moved = steps.map_values(|line: Seq<char>| "      "@ + line);
    assert forall|k: int| 0 <= k < moved.len() implies is_only_place(
        lines(execute_part(files)),
        moved[k],
        #[trigger] places[k],
    ) by {
        lemma_place_in_yaml(files, steps[k], places[k]);
    }
    assert(places.len() == moved.len());
}

/// The text that runs the snippets holds the lines of the script, one for one: the first as it is,
/// the empty ones empty, and the others behind six spaces.
pub proof fn law_block_holds_the_lines(files: Seq<(Seq<char>, Seq<char>)>)
    requires
        files.len() > 0,
    ensures
        lines(execute_part(files)).len() == execute_script().len(),
        lines(execute_part(files))[0] == execute_script()[0],
        forall|i: int|
            0 < i < execute_script().len() ==> #[trigger] lines(execute_part(files))[i] == if execute_script()[i].len()
                == 0 {
                Seq::empty()
            } else {
                "      "@ + execute_script()[i]
            },
{
    lemma_script_lines();
    law_indented_lines_are_read_back(execute_script());
}

/// In the loop over the staged snippets each is first copied to where cloud-init finds it and the
/// memory of the instance wiped; then the three stages of cloud-init run, one behind the other; then
/// the copy is removed, whether they failed or not, before the loop goes on.
pub proof fn law_snippet_is_put_in_place_run_and_removed(files: Seq<(Seq<char>, Seq<char>)>)
    requires
        files.len() > 0,
    ensures
        ({
            let steps = seq![
                "    for snippet in /opt/forge/custom-cloud-init.d/*; do"@,
                "        [ -e \"$snippet\" ] || continue"@,
                "        echo \"Processing arbitrary snippet: $snippet\""@,
                "        cp \"$snippet\" \"$FORGE_CFG\""@,
                "        rm -rf \"${CLOUD_DIR}/instance\" \"${CLOUD_DIR}/instances\" \"${CLOUD_DIR}/data\""@,
                "        ("@,
                "            ip vrf exec mgmt cloud-init init --local && \\"@,
                "            ip vrf exec mgmt cloud-init modules --mode config && \\"@,
                "            ip vrf exec mgmt cloud-init modules --mode final"@,
                "        ) || echo \"ERROR: Cloud-init execution failed for $snippet. Skipping to cleanup.\""@,
                "        rm -f \"$FORGE_CFG\""@,
                "    done"@,
            ];
            &&& stand_in_turn(execute_script(), steps)
            &&& stand_in_turn(
                lines(execute_part(files)),
                steps.map_values(|line: Seq<char>| "      "@ + line),
            )
        }),
{
    let steps = seq![
        "    for snippet in /opt/forge/custom-cloud-init.d/*; do"@,
        "        [ -e \"$snippet\" ] || continue"@,
        "        echo \"Processing arbitrary snippet: $snippet\""@,
        "        cp \"$snippet\" \"$FORGE_CFG\""@,
        "        rm -rf \"${CLOUD_DIR}/instance\" \"${CLOUD_DIR}/instances\" \"${CLOUD_DIR}/data\""@,
        "        ("@,
        "            ip vrf exec mgmt cloud-init init --local && \\"@,
        "            ip vrf exec mgmt cloud-init modules --mode config && \\"@,
        "            ip vrf exec mgmt cloud-init modules --mode final"@,
        "        ) || echo \"ERROR: Cloud-init execution failed for $snippet. Skipping to cleanup.\""@,
        "        rm -f \"$FORGE_CFG\""@,
        "    done"@,
    ];
    let places: Seq<int> = seq![9, 10, 11, 14, 15, 18, 19, 20, 21, 22, 25, 26];
    lemma_script_texts();
    lemma_script_places();
    assert(places.len() == steps.len());
    assert(stand_in_turn(execute_script(), steps));
    lemma_in_turn_in_yaml(files, steps, places);
}

/// The state of cloud-init is saved before the first snippet runs, and restored from where it was
/// saved after the last one: where it is kept is said before anything is done, and the loop stands
/// between.
pub proof fn law_state_is_saved_and_restored(files: Seq<(Seq<char>, Seq<char>)>)
    requires
        files.len() > 0,
    ensures
        ({
            let steps = seq![
                "CLOUD_DIR=\"/var/lib/cloud\""@,
                "BACKUP_DIR=\"/var/lib/cloud.original\""@,
                "FORGE_CFG=\"/etc/cloud/cloud.cfg.d/99-forge-snippet.cfg\""@,
                "if [ ! -d \"$BACKUP_DIR\" ]; then cp -rp \"$CLOUD_DIR\" \"$BACKUP_DIR\"; fi"@,
                "if [ -d \"/opt/forge/custom-cloud-init.d/\" ]; then"@,
                "    for snippet in /opt/forge/custom-cloud-init.d/*; do"@,
                "    done"@,
                "fi"@,
                "echo \"Restoring original cloud-init state...\""@,
                "rm -rf \"$CLOUD_DIR\" && mv \"$BACKUP_DIR\" \"$CLOUD_DIR\""@,
            ];
            &&& stand_in_turn(execute_script(), steps)
            &&& stand_in_turn(
                lines(execute_part(files)),
                steps.map_values(|line: Seq<char>| "      "@ + line),
            )
        }),
{
    let steps = seq![
        "CLOUD_DIR=\"/var/lib/cloud\""@,
        "BACKUP_DIR=\"/var/lib/cloud.original\""@,
        "FORGE_CFG=\"/etc/cloud/cloud.cfg.d/99-forge-snippet.cfg\""@,
        "if [ ! -d \"$BACKUP_DIR\" ]; then cp -rp \"$CLOUD_DIR\" \"$BACKUP_DIR\"; fi"@,
        "if [ -d \"/opt/forge/custom-cloud-init.d/\" ]; then"@,
        "    for snippet in /opt/forge/custom-cloud-init.d/*; do"@,
        "    done"@,
        "fi"@,
        "echo \"Restoring original cloud-init state...\""@,
        "rm -rf \"$CLOUD_DIR\" && mv \"$BACKUP_DIR\" \"$CLOUD_DIR\""@,
    ];
    let places: Seq<int> = seq![1, 2, 3, 6, 8, 9, 26, 27, 30, 31];
    lemma_script_texts();
    lemma_script_places();
    assert(places.len() == steps.len());
    assert(stand_in_turn(execute_script(), steps));
    lemma_in_turn_in_yaml(files, steps, places);
}

/// The script runs nothing but the commands that are listed here: any other line of it is empty or a
/// comment.
pub proof fn law_script_runs_nothing_else(files: Seq<(Seq<char>, Seq<char>)>, i: int)
    requires
        files.len() > 0,
        0 <= i < lines(execute_part(files)).len(),
    ensures
        ({
            let line = lines(execute_part(files))[i];
            ||| line.len() == 0
            ||| line[0] == '#'
            ||| line.len() > 6 && line.take(6) == "      "@ && line[6] == '#'
            ||| line.len() > 14 && line.take(14) == "              "@ && line[14] == '#'
            ||| line == "      "@ + "CLOUD_DIR=\"/var/lib/cloud\""@
            ||| line == "      "@ + "BACKUP_DIR=\"/var/lib/cloud.original\""@
            ||| line == "      "@ + "FORGE_CFG=\"/etc/cloud/cloud.cfg.d/99-forge-snippet.cfg\""@
            ||| line == "      "@ + "if [ ! -d \"$BACKUP_DIR\" ]; then cp -rp \"$CLOUD_DIR\" \"$BACKUP_DIR\"; fi"@
            ||| line == "      "@ + "if [ -d \"/opt/forge/custom-cloud-init.d/\" ]; then"@
            ||| line == "      "@ + "    for snippet in /opt/forge/custom-cloud-init.d/*; do"@
            ||| line == "      "@ + "        [ -e \"$snippet\" ] || continue"@
            ||| line == "      "@ + "        echo \"Processing arbitrary snippet: $snippet\""@
            ||| line == "      "@ + "        cp \"$snippet\" \"$FORGE_CFG\""@
            ||| line == "      "@ + "        rm -rf \"${CLOUD_DIR}/instance\" \"${CLOUD_DIR}/instances\" \"${CLOUD_DIR}/data\""@
            ||| line == "      "@ + "        ("@
            ||| line == "      "@ + "            ip vrf exec mgmt cloud-init init --local && \\"@
            ||| line == "      "@ + "            ip vrf exec mgmt cloud-init modules --mode config && \\"@
            ||| line == "      "@ + "            ip vrf exec mgmt cloud-init modules --mode final"@
            ||| line == "      "@ + "        ) || echo \"ERROR: Cloud-init execution failed for $snippet. Skipping to cleanup.\""@
            ||| line == "      "@ + "        rm -f \"$FORGE_CFG\""@
            ||| line == "      "@ + "    done"@
            ||| line == "      "@ + "fi"@
            ||| line == "      "@ + "echo \"Restoring original cloud-init state...\""@
            ||| line == "      "@ + "rm -rf \"$CLOUD_DIR\" && mv \"$BACKUP_DIR\" \"$CLOUD_DIR\""@
        }),
{
    let script = execute_script();
    let line = lines(execute_part(files))[i];
    law_block_holds_the_lines(files);
    lemma_script_texts();
    lemma_script_places();
    reveal_strlit("      ");
    reveal_strlit("              ");
    reveal_strlit("# --- Start Cloud-Init Snippet Execution ---");
    reveal_strlit("# 1. Create a Time Capsule of the original state");
    reveal_strlit("        # 2. Infiltrate global config and wipe active instance memory");
    reveal_strlit("        # 3. Chained execution: stop immediately if any stage fails");
    reveal_strlit("        # 4. Clean up the injection point for the next loop iteration");
    reveal_strlit("# 5. Restore the 'Time Capsule' so the DPU state is preserved");
    reveal_strlit("# --- End Cloud-Init Snippet Execution ---");
    if i > 0 && line.len() > 0 {
        assert(line == "      "@ + script[i]);
        assert(line.take(6) =~= "      "@);
        assert(i == 1 ==> line == "      "@ + "CLOUD_DIR=\"/var/lib/cloud\""@);
        assert(i == 2 ==> line == "      "@ + "BACKUP_DIR=\"/var/lib/cloud.original\""@);
        assert(i == 3 ==> line == "      "@ + "FORGE_CFG=\"/etc/cloud/cloud.cfg.d/99-forge-snippet.cfg\""@);
        assert(i == 5 ==> line.len() > 6 && line[6] == '#');
        assert(i == 6 ==> line == "      "@ + "if [ ! -d \"$BACKUP_DIR\" ]; then cp -rp \"$CLOUD_DIR\" \"$BACKUP_DIR\"; fi"@);
        assert(i == 8 ==> line == "      "@ + "if [ -d \"/opt/forge/custom-cloud-init.d/\" ]; then"@);
        assert(i == 9 ==> line == "      "@ + "    for snippet in /opt/forge/custom-cloud-init.d/*; do"@);
        assert(i == 10 ==> line == "      "@ + "        [ -e \"$snippet\" ] || continue"@);
        assert(i == 11 ==> line == "      "@ + "        echo \"Processing arbitrary snippet: $snippet\""@);
        assert(i == 13 ==> line.len() > 14 && line.take(14) =~= "              "@ && line[14] == '#');
        assert(i == 14 ==> line == "      "@ + "        cp \"$snippet\" \"$FORGE_CFG\""@);
        assert(i == 15 ==> line == "      "@ + "        rm -rf \"${CLOUD_DIR}/instance\" \"${CLOUD_DIR}/instances\" \"${CLOUD_DIR}/data\""@);
        assert(i == 17 ==> line.len() > 14 && line.take(14) =~= "              "@ && line[14] == '#');
        assert(i == 18 ==> line == "      "@ + "        ("@);
        assert(i == 19 ==> line == "      "@ + "            ip vrf exec mgmt cloud-init init --local && \\"@);
        assert(i == 20 ==> line == "      "@ + "            ip vrf exec mgmt cloud-init modules --mode config && \\"@);
        assert(i == 21 ==> line == "      "@ + "            ip vrf exec mgmt cloud-init modules --mode final"@);
        assert(i == 22 ==> line == "      "@ + "        ) || echo \"ERROR: Cloud-init execution failed for $snippet. Skipping to cleanup.\""@);
        assert(i == 24 ==> line.len() > 14 && line.take(14) =~= "              "@ && line[14] == '#');
        assert(i == 25 ==> line == "      "@ + "        rm -f \"$FORGE_CFG\""@);
        assert(i == 26 ==> line == "      "@ + "    done"@);
        assert(i == 27 ==> line == "      "@ + "fi"@);
        assert(i == 29 ==> line.len() > 6 && line[6] == '#');
        assert(i == 30 ==> line == "      "@ + "echo \"Restoring original cloud-init state...\""@);
        assert(i == 31 ==> line == "      "@ + "rm -rf \"$CLOUD_DIR\" && mv \"$BACKUP_DIR\" \"$CLOUD_DIR\""@);
        assert(i == 32 ==> line.len() > 6 && line[6] == '#');
    }
}

/// The script has thirty-three lines and stands between two marks. Each of its five steps has a
/// comment at its head, behind an empty line, and so is the loop set off from what is before it.
pub proof fn law_steps_have_headings(files: Seq<(Seq<char>, Seq<char>)>)
    requires
        files.len() > 0,
    ensures
        ({
            let script = lines(execute_part(files));
            let heads = |heading: Seq<char>, command: Seq<char>, at: int|
                {
                    &&& script[at - 1].len() == 0
                    &&& is_only_place(script, "      "@ + heading, at)
                    &&& is_only_place(script, "      "@ + command, at + 1)
                };
            &&& script.len() == 33
            &&& script[0] == "# --- Start Cloud-Init Snippet Execution ---"@
            &&& script[32] == "      # --- End Cloud-Init Snippet Execution ---"@
            &&& exists|at: int| #[trigger] heads("# 1. Create a Time Capsule of the original state"@, "if [ ! -d \"$BACKUP_DIR\" ]; then cp -rp \"$CLOUD_DIR\" \"$BACKUP_DIR\"; fi"@, at)
            &&& exists|at: int| #[trigger] heads("        # 2. Infiltrate global config and wipe active instance memory"@, "        cp \"$snippet\" \"$FORGE_CFG\""@, at)
            &&& exists|at: int| #[trigger] heads("        # 3. Chained execution: stop immediately if any stage fails"@, "        ("@, at)
            &&& exists|at: int| #[trigger] heads("        # 4. Clean up the injection point for the next loop iteration"@, "        rm -f \"$FORGE_CFG\""@, at)
            &&& exists|at: int| #[trigger] heads("# 5. Restore the 'Time Capsule' so the DPU state is preserved"@, "echo \"Restoring original cloud-init state...\""@, at)
            &&& exists|at: int|
                #[trigger] is_only_place(script, "      "@ + "if [ -d \"/opt/forge/custom-cloud-init.d/\" ]; then"@, at) && script[at - 1].len() == 0
        }),
{
    let script = lines(execute_part(files));
    let heads = |heading: Seq<char>, command: Seq<char>, at: int|
        {
            &&& script[at - 1].len() == 0
            &&& is_only_place(script, "      "@ + heading, at)
            &&& is_only_place(script, "      "@ + command, at + 1)
        };
    law_block_holds_the_lines(files);
    lemma_script_texts();
    lemma_script_places();
    reveal_strlit("      ");
    reveal_strlit("# --- End Cloud-Init Snippet Execution ---");
    reveal_strlit("      # --- End Cloud-Init Snippet Execution ---");
    assert("      "@ + "# --- End Cloud-Init Snippet Execution ---"@
        =~= "      # --- End Cloud-Init Snippet Execution ---"@);
    lemma_place_in_yaml(files, "# 1. Create a Time Capsule of the original state"@, 5);
    lemma_place_in_yaml(files, "if [ ! -d \"$BACKUP_DIR\" ]; then cp -rp \"$CLOUD_DIR\" \"$BACKUP_DIR\"; fi"@, 6);
    assert(heads("# 1. Create a Time Capsule of the original state"@, "if [ ! -d \"$BACKUP_DIR\" ]; then cp -rp \"$CLOUD_DIR\" \"$BACKUP_DIR\"; fi"@, 5));
    lemma_place_in_yaml(files, "        # 2. Infiltrate global config and wipe active instance memory"@, 13);
    lemma_place_in_yaml(files, "        cp \"$snippet\" \"$FORGE_CFG\""@, 14);
    assert(heads("        # 2. Infiltrate global config and wipe active instance memory"@, "        cp \"$snippet\" \"$FORGE_CFG\""@, 13));
    lemma_place_in_yaml(files, "        # 3. Chained execution: stop immediately if any stage fails"@, 17);
    lemma_place_in_yaml(files, "        ("@, 18);
    assert(heads("        # 3. Chained execution: stop immediately if any stage fails"@, "        ("@, 17));
    lemma_place_in_yaml(files, "        # 4. Clean up the injection point for the next loop iteration"@, 24);
    lemma_place_in_yaml(files, "        rm -f \"$FORGE_CFG\""@, 25);
    assert(heads("        # 4. Clean up the injection point for the next loop iteration"@, "        rm -f \"$FORGE_CFG\""@, 24));
    lemma_place_in_yaml(files, "# 5. Restore the 'Time Capsule' so the DPU state is preserved"@, 29);
    lemma_place_in_yaml(files, "echo \"Restoring original cloud-init state...\""@, 30);
    assert(heads("# 5. Restore the 'Time Capsule' so the DPU state is preserved"@, "echo \"Restoring original cloud-init state...\""@, 29));
    lemma_place_in_yaml(files, "if [ -d \"/opt/forge/custom-cloud-init.d/\" ]; then"@, 8);
}

} // verus!
