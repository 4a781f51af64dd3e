//! The files of the directory for custom cloud-init, and where a machine finds them.

use crate::names::{
    in_name_order, law_name_order_is_by_first_difference, law_sorted_names, law_sorting_forgets_order, sort_names, sorted_names,
};
use crate::text::{law_trimming_forgets_edges, trim_slashes, trimmed};
use vstd::prelude::*;
use vstd::seq_lib::*;

verus! {

/// One entry of a directory: whether it is a file, and its name where that is Unicode text.
#[derive(Debug)]
pub struct DirectoryEntry {
    pub is_file: bool,
    pub name: Option<String>,
}

impl DirectoryEntry {
    /// The name by which the entry is offered, if it is offered at all.
    pub open spec fn file_name(self) -> Option<Seq<char>> {
        match self.name {
            Some(name) if self.is_file => Some(name@),
            _ => None,
        }
    }
}

/// The names of the files in a directory, as they come.
pub open spec fn file_names(entries: Seq<DirectoryEntry>) -> Seq<Seq<char>> {
    entries.filter_map(|entry: DirectoryEntry| entry.file_name())
}

/// The URL that all files are found under.
pub open spec fn base_url(server_name: Seq<char>, web_root: Seq<char>) -> Seq<char> {
    trimmed(server_name, '/') + "/"@ + trimmed(web_root, '/')
}

/// A file name with the URL of the file.
pub open spec fn named_url(
    server_name: Seq<char>,
    web_root: Seq<char>,
    name: Seq<char>,
) -> (Seq<char>, Seq<char>) {
    (name, base_url(server_name, web_root) + "/"@ + name)
}

/// The files of a directory with their URLs, in the order of their names.
pub open spec fn cloud_init_urls(
    entries: Seq<DirectoryEntry>,
    server_name: Seq<char>,
    web_root: Seq<char>,
) -> Seq<(Seq<char>, Seq<char>)> {
    sorted_names(file_names(entries)).map_values(
        |name: Seq<char>| named_url(server_name, web_root, name),
    )
}

/// Picks the names of the files.
fn collect_file_names(entries: Vec<DirectoryEntry>) -> (names: Vec<String>)
    ensures
        names.deep_view() == file_names(entries@),
{
    let mut names: Vec<String> = Vec::new();
    let mut i: usize = 0;
    proof {
        assert(entries@.take(0).len() == 0);
    }
    while i < entries.len()
        invariant
            i <= entries.len(),
            names.deep_view() == file_names(entries@.take(i as int)),
        decreases entries.len() - i,
    {
        let ghost before = names.deep_view();
        proof {
            assert(entries@.take(i + 1).drop_last() =~= entries@.take(i as int));
        }
        if entries[i].is_file {
            match &entries[i].name {
                Some(name) => {
                    names.push(name.clone());
                    proof {
                        assert(names.deep_view() =~= before + seq![name@]);
                    }
                },
                None => {},
            }
        }
        i = i + 1;
    }
    proof {
        assert(entries@.take(i as int) =~= entries@);
    }
    names
}

/// From the listing of a directory, the files in it: a list of (basename, url), in the order of
/// the names, which is empty if no files are found; or the error with which the listing failed.
pub fn get_cloud_init_urls<E>(
    listing: Result<Vec<DirectoryEntry>, E>,
    server_name: &str,
    web_root: &str,
) -> (urls: Result<Vec<(String, String)>, E>)
    ensures
        match listing {
            Ok(entries) => urls is Ok && urls->Ok_0.deep_view() == cloud_init_urls(
                entries@,
                server_name@,
                web_root@,
            ),
            Err(error) => urls is Err && urls->Err_0 == error,
        },
{
    let entries = match listing {
        Ok(entries) => entries,
        Err(error) => {
            return Err(error);
        },
    };
    let names = sort_names(collect_file_names(entries));
    let mut base: String = trim_slashes(server_name);
    base.append("/");
    base.append(trim_slashes(web_root).as_str());
    let mut urls: Vec<(String, String)> = Vec::new();
    let mut i: usize = 0;
    while i < names.len()
        invariant
            i <= names.len(),
            base@ == base_url(server_name@, web_root@),
            urls.len() == i,
            forall|k: int|
                0 <= k < i ==> #[trigger] urls.deep_view()[k] == named_url(
                    server_name@,
                    web_root@,
                    names@[k]@,
                ),
        decreases names.len() - i,
    {
        let mut url: String = base.clone();
        url.append("/");
        url.append(names[i].as_str());
        let ghost before = urls.deep_view();
        urls.push((names[i].clone(), url));
        proof {
            assert(urls.deep_view() =~= before.push(
                named_url(server_name@, web_root@, names@[i as int]@),
            ));
        }
        i = i + 1;
    }
    proof {
        assert(urls.deep_view() =~= cloud_init_urls(entries@, server_name@, web_root@)) by {
            assert(names.deep_view() == sorted_names(file_names(entries@)));
        }
    }
    Ok(urls)
}

/// Which entry the directory lists first does not matter: the same entries in another order give
/// the same list.
pub proof fn law_listing_order_is_irrelevant(
    entries: Seq<DirectoryEntry>,
    shuffled: Seq<DirectoryEntry>,
    server_name: Seq<char>,
    web_root: Seq<char>,
)
    requires
        entries.to_multiset() == shuffled.to_multiset(),
    ensures
        cloud_init_urls(entries, server_name, web_root) == cloud_init_urls(
            shuffled,
            server_name,
            web_root,
        ),
{
    lemma_file_names_of_shuffled(entries, shuffled);
    law_sorting_forgets_order(file_names(entries), file_names(shuffled));
}

proof fn lemma_file_names_of_joined(front: Seq<DirectoryEntry>, back: Seq<DirectoryEntry>)
    ensures
        file_names(front + back) == file_names(front) + file_names(back),
    decreases back.len(),
{
    if back.len() == 0 {
        assert(front + back =~= front);
        assert(file_names(front) + file_names(back) =~= file_names(front));
    } else {
        lemma_file_names_of_joined(front, back.drop_last());
        assert((front + back).drop_last() =~= front + back.drop_last());
        assert((front + back).last() == back.last());
        assert(file_names(front + back) =~= file_names(front) + file_names(back));
    }
}

proof fn lemma_file_names_of_shuffled(entries: Seq<DirectoryEntry>, shuffled: Seq<DirectoryEntry>)
    requires
        entries.to_multiset() == shuffled.to_multiset(),
    ensures
        file_names(entries).to_multiset() == file_names(shuffled).to_multiset(),
    decreases entries.len(),
{
    entries.to_multiset_ensures();
    shuffled.to_multiset_ensures();
    if entries.len() == 0 {
        assert(entries =~= shuffled);
    } else {
        let last = entries.last();
        let rest = entries.drop_last();
        assert(entries.contains(last));
        assert(entries.to_multiset().count(last) > 0);
        assert(shuffled.contains(last));
        let at = choose|i: int| 0 <= i < shuffled.len() && shuffled[i] == last;
        let front = shuffled.take(at);
        let back = shuffled.skip(at + 1);
        let single = seq![last];
        assert(shuffled.remove(at) =~= front + back);
        assert(entries.remove(entries.len() - 1) =~= rest);
        lemma_file_names_of_shuffled(rest, front + back);
        assert(shuffled =~= front + single + back);
        assert(entries =~= rest + single);
        lemma_file_names_of_joined(rest, single);
        lemma_file_names_of_joined(front + single, back);
        lemma_file_names_of_joined(front, single);
        lemma_file_names_of_joined(front, back);
        let a = file_names(front);
        let b = file_names(single);
        let c = file_names(back);
        lemma_multiset_commutative(file_names(rest), b);
        lemma_multiset_commutative(a + b, c);
        lemma_multiset_commutative(a, b);
        lemma_multiset_commutative(a, c);
        assert(file_names(entries).to_multiset() =~= file_names(shuffled).to_multiset());
    }
}

/// What is not a file with a Unicode name is passed over.
pub proof fn law_other_entries_are_passed_over(
    front: Seq<DirectoryEntry>,
    other: DirectoryEntry,
    back: Seq<DirectoryEntry>,
    server_name: Seq<char>,
    web_root: Seq<char>,
)
    requires
        !other.is_file || other.name is None,
    ensures
        cloud_init_urls(front.push(other) + back, server_name, web_root) == cloud_init_urls(
            front + back,
            server_name,
            web_root,
        ),
{
    assert(front.push(other).drop_last() =~= front);
    lemma_file_names_of_joined(front.push(other), back);
    lemma_file_names_of_joined(front, back);
}

/// Only the files with a Unicode name matter: two listings with the same files, in the same order,
/// give the same list, whatever else stands in either.
pub proof fn law_only_files_matter(
    entries: Seq<DirectoryEntry>,
    others: Seq<DirectoryEntry>,
    server_name: Seq<char>,
    web_root: Seq<char>,
)
    requires
        file_names(entries) == file_names(others),
    ensures
        cloud_init_urls(entries, server_name, web_root) == cloud_init_urls(
            others,
            server_name,
            web_root,
        ),
{
}

/// However many slashes stand around the server's name and around the web root, the list is the
/// same: what is left without them decides it.
pub proof fn law_any_outer_slashes_are_irrelevant(
    entries: Seq<DirectoryEntry>,
    server_name: Seq<char>,
    other_name: Seq<char>,
    web_root: Seq<char>,
    other_root: Seq<char>,
)
    requires
        trimmed(server_name, '/') == trimmed(other_name, '/'),
        trimmed(web_root, '/') == trimmed(other_root, '/'),
    ensures
        cloud_init_urls(entries, server_name, web_root) == cloud_init_urls(
            entries,
            other_name,
            other_root,
        ),
{
    assert(cloud_init_urls(entries, server_name, web_root) =~= cloud_init_urls(
        entries,
        other_name,
        other_root,
    ));
}

/// Slashes around the server's name and around the web root make no difference.
pub proof fn law_outer_slashes_are_irrelevant(
    entries: Seq<DirectoryEntry>,
    server_name: Seq<char>,
    web_root: Seq<char>,
)
    ensures
        cloud_init_urls(entries, server_name.push('/'), web_root) == cloud_init_urls(
            entries,
            server_name,
            web_root,
        ),
        cloud_init_urls(entries, seq!['/'] + server_name, web_root) == cloud_init_urls(
            entries,
            server_name,
            web_root,
        ),
        cloud_init_urls(entries, server_name, web_root.push('/')) == cloud_init_urls(
            entries,
            server_name,
            web_root,
        ),
        cloud_init_urls(entries, server_name, seq!['/'] + web_root) == cloud_init_urls(
            entries,
            server_name,
            web_root,
        ),
{
    law_trimming_forgets_edges(server_name, '/');
    law_trimming_forgets_edges(web_root, '/');
    law_any_outer_slashes_are_irrelevant(
        entries,
        server_name.push('/'),
        server_name,
        web_root,
        web_root,
    );
    law_any_outer_slashes_are_irrelevant(
        entries,
        seq!['/'] + server_name,
        server_name,
        web_root,
        web_root,
    );
    law_any_outer_slashes_are_irrelevant(
        entries,
        server_name,
        server_name,
        web_root.push('/'),
        web_root,
    );
    law_any_outer_slashes_are_irrelevant(
        entries,
        server_name,
        server_name,
        seq!['/'] + web_root,
        web_root,
    );
}

/// Every file is offered once, under its own name, and the names stand in order.
pub proof fn law_every_file_is_offered(
    entries: Seq<DirectoryEntry>,
    server_name: Seq<char>,
    web_root: Seq<char>,
    i: int,
    j: int,
)
    ensures
        ({
            let urls = cloud_init_urls(entries, server_name, web_root);
            let names = urls.map_values(|url: (Seq<char>, Seq<char>)| url.0);
            &&& names.to_multiset() == file_names(entries).to_multiset()
            &&& 0 <= i < j < urls.len() ==> in_name_order(urls[i].0, urls[j].0)
            &&& 0 <= i < urls.len() ==> urls[i].1 == base_url(server_name, web_root) + "/"@ + urls[i].0
        }),
{
    let urls = cloud_init_urls(entries, server_name, web_root);
    assert(urls.map_values(|url: (Seq<char>, Seq<char>)| url.0) =~= sorted_names(
        file_names(entries),
    ));
    law_sorted_names(file_names(entries), i, j);
}

/// The names are those of the entries that are files and have a name, in the order of the entries.
proof fn lemma_names_of_files(entries: Seq<DirectoryEntry>)
    ensures
        file_names(entries) == entries.filter(
            |entry: DirectoryEntry| entry.is_file && entry.name is Some,
        ).map_values(|entry: DirectoryEntry| entry.name->Some_0@),
    decreases entries.len(),
{
    reveal(Seq::filter);
    let is_offered = |entry: DirectoryEntry| entry.is_file && entry.name is Some;
    let name = |entry: DirectoryEntry| entry.name->Some_0@;
    if entries.len() == 0 {
        assert(file_names(entries) =~= entries.filter(is_offered).map_values(name));
    } else {
        let rest = entries.drop_last();
        lemma_names_of_files(rest);
        assert(file_names(entries) =~= entries.filter(is_offered).map_values(name));
    }
}

/// There is one pair for each entry that is a file and has a name, no more and no fewer, and the
/// names of the pairs are the names of these entries, each as often as it occurs among them.
pub proof fn law_one_pair_for_each_file(
    entries: Seq<DirectoryEntry>,
    server_name: Seq<char>,
    web_root: Seq<char>,
)
    ensures
        ({
            let urls = cloud_init_urls(entries, server_name, web_root);
            let files = entries.filter(|entry: DirectoryEntry| entry.is_file && entry.name is Some);
            &&& urls.len() == files.len()
            &&& urls.map_values(|url: (Seq<char>, Seq<char>)| url.0).to_multiset()
                == files.map_values(|entry: DirectoryEntry| entry.name->Some_0@).to_multiset()
        }),
{
    lemma_names_of_files(entries);
    law_every_file_is_offered(entries, server_name, web_root, 0, 0);
    law_sorted_names(file_names(entries), 0, 0);
}

/// Every entry that is a file and has a name is listed under that name, with the URL that is made of
/// the server's name, the web root and the file's name, slashes between them.
pub proof fn law_every_file_is_listed(
    entries: Seq<DirectoryEntry>,
    server_name: Seq<char>,
    web_root: Seq<char>,
    i: int,
)
    requires
        0 <= i < entries.len(),
        entries[i].is_file,
        entries[i].name is Some,
    ensures
        ({
            let name = entries[i].name->Some_0@;
            let url = trimmed(server_name, '/') + "/"@ + trimmed(web_root, '/') + "/"@ + name;
            cloud_init_urls(entries, server_name, web_root).contains((name, url))
        }),
{
    let name = entries[i].name->Some_0@;
    let names = file_names(entries);
    lemma_name_of_file(entries, i);
    law_sorted_names(names, 0, 0);
    names.to_multiset_ensures();
    sorted_names(names).to_multiset_ensures();
    assert(names.to_multiset().count(name) > 0);
    assert(sorted_names(names).contains(name));
    let j = choose|j: int| 0 <= j < sorted_names(names).len() && sorted_names(names)[j] == name;
    assert(cloud_init_urls(entries, server_name, web_root)[j] == named_url(
        server_name,
        web_root,
        name,
    ));
}

proof fn lemma_name_of_file(entries: Seq<DirectoryEntry>, i: int)
    requires
        0 <= i < entries.len(),
        entries[i].is_file,
        entries[i].name is Some,
    ensures
        file_names(entries).contains(entries[i].name->Some_0@),
{
    let single = seq![entries[i]];
    let front = entries.take(i);
    let back = entries.skip(i + 1);
    let name = entries[i].name->Some_0@;
    assert(entries =~= front + single + back);
    lemma_file_names_of_joined(front + single, back);
    lemma_file_names_of_joined(front, single);
    assert(single.drop_last().len() == 0);
    assert(file_names(single.drop_last()).len() == 0);
    assert(file_names(single) =~= seq![name]);
    assert(file_names(entries)[file_names(front).len() as int] == name);
}

/// Nothing is listed but files that are in the directory: each pair has the name of an entry that is
/// a file, and the URL that belongs to the name.
pub proof fn law_only_files_are_listed(
    entries: Seq<DirectoryEntry>,
    server_name: Seq<char>,
    web_root: Seq<char>,
    j: int,
)
    requires
        0 <= j < cloud_init_urls(entries, server_name, web_root).len(),
    ensures
        exists|i: int|
            {
                &&& 0 <= i < entries.len()
                &&& (#[trigger] entries[i]).is_file
                &&& entries[i].name is Some
                &&& entries[i].name->Some_0@ == cloud_init_urls(entries, server_name, web_root)[j].0
            },
        cloud_init_urls(entries, server_name, web_root)[j].1 == trimmed(server_name, '/') + "/"@
            + trimmed(web_root, '/') + "/"@ + cloud_init_urls(entries, server_name, web_root)[j].0,
{
    let names = file_names(entries);
    let name = cloud_init_urls(entries, server_name, web_root)[j].0;
    law_sorted_names(names, 0, 0);
    names.to_multiset_ensures();
    sorted_names(names).to_multiset_ensures();
    assert(sorted_names(names)[j] == name);
    assert(sorted_names(names).to_multiset().count(name) > 0);
    assert(names.contains(name));
    entries.lemma_filter_map_contains(|entry: DirectoryEntry| entry.file_name(), name);
}

/// The pairs stand in the order of their names.
pub proof fn law_files_are_listed_in_order(
    entries: Seq<DirectoryEntry>,
    server_name: Seq<char>,
    web_root: Seq<char>,
    i: int,
    j: int,
)
    requires
        0 <= i < j < cloud_init_urls(entries, server_name, web_root).len(),
    ensures
        ({
            let a = cloud_init_urls(entries, server_name, web_root)[i].0;
            let b = cloud_init_urls(entries, server_name, web_root)[j].0;
            ||| a.len() <= b.len() && b.take(a.len() as int) == a
            ||| exists|k: int|
                0 <= k < a.len() && k < b.len() && #[trigger] a.take(k) == b.take(k) && a[k] < b[k]
        }),
{
    let urls = cloud_init_urls(entries, server_name, web_root);
    law_every_file_is_offered(entries, server_name, web_root, i, j);
    law_name_order_is_by_first_difference(urls[i].0, urls[j].0);
}

} // verus!
