//! The text that the plugin's expansion tests compare: every file of the
//! expanded test module, under its name, the files set apart by blank lines.
use vstd::prelude::*;

verus! {

/// The parts, in order, with `sep` between each two of them.
pub open spec fn joined(parts: Seq<Seq<char>>, sep: Seq<char>) -> Seq<char>
    decreases parts.len(),
{
    if parts.len() == 0 {
        Seq::empty()
    } else if parts.len() == 1 {
        parts[0]
    } else {
        joined(parts.drop_last(), sep) + sep + parts.last()
    }
}

/// One expanded file: where it was generated from, when that is not the file
/// itself, then its name and its content.
pub open spec fn expanded_file_spec(origin: Option<Seq<char>>, file_name: Seq<char>, content: Seq<char>) -> Seq<char> {
    let head = match origin {
        Some(o) => o + "\n"@,
        None => Seq::empty(),
    };
    head + file_name + ":\n\n"@ + content
}

/// The text of one expanded file; `origin` is the description of the place
/// that the file was generated from, where that is not the file itself.
pub fn expanded_file_text(origin: Option<&str>, file_name: &str, content: &str) -> (r: String)
    ensures
        r@ == expanded_file_spec(
            match origin {
                Some(o) => Some(o@),
                None => None,
            },
            file_name@,
            content@,
        ),
{
    let mut text = String::new();
    if let Some(o) = origin {
        text.append(o);
        text.append("\n");
    }
    text.append(file_name);
    text.append(":\n\n");
    text.append(content);
    text
}

/// The texts joined with `sep` between each two of them.
pub fn join_texts(parts: &Vec<String>, sep: &str) -> (r: String)
    ensures
        r@ == joined(parts@.map_values(|p: String| p@), sep@),
{
    let ghost views = parts@.map_values(|p: String| p@);
    let mut text = String::new();
    let mut i: usize = 0;
    while i < parts.len()
        invariant
            i <= parts.len(),
            views == parts@.map_values(|p: String| p@),
            text@ == joined(views.take(i as int), sep@),
        decreases parts.len() - i,
    {
        if i != 0 {
            text.append(sep);
        }
        text.append(parts[i].as_str());
        i = i + 1;
        assert(views.take(i as int).drop_last() =~= views.take(i - 1));
        assert(views.take(i as int).last() == parts@[i - 1]@);
        if i == 1 {
            assert(text@ =~= joined(views.take(i as int), sep@));
        }
    }
    assert(views.take(parts.len() as int) =~= views);
    text
}

/// Joining two non-empty lists of parts is joining each, with `sep` between.
pub proof fn lemma_joined_concatenates(first: Seq<Seq<char>>, second: Seq<Seq<char>>, sep: Seq<char>)
    requires
        first.len() > 0,
        second.len() > 0,
    ensures
        joined(first + second, sep) == joined(first, sep) + sep + joined(second, sep),
    decreases second.len(),
{
    if second.len() == 1 {
        assert((first + second).drop_last() =~= first);
        assert(joined(first, sep) + sep + joined(second, sep) =~= joined(first, sep) + sep + second[0]);
    } else {
        lemma_joined_concatenates(first, second.drop_last(), sep);
        assert((first + second).drop_last() =~= first + second.drop_last());
        assert((first + second).last() == second.last());
        assert(joined(first + second, sep) =~= joined(first, sep) + sep + joined(second, sep));
    }
}

/// The ids in their order, each kept where it first occurs.
pub open spec fn first_occurrences(ids: Seq<u64>) -> Seq<u64>
    decreases ids.len(),
{
    if ids.len() == 0 {
        Seq::empty()
    } else if ids.drop_last().contains(ids.last()) {
        first_occurrences(ids.drop_last())
    } else {
        first_occurrences(ids.drop_last()).push(ids.last())
    }
}

/// Keeping first occurrences keeps every id, adds none, and leaves no repeat.
pub proof fn lemma_first_occurrences(ids: Seq<u64>)
    ensures
        forall|x: u64| first_occurrences(ids).contains(x) <==> ids.contains(x),
        first_occurrences(ids).no_duplicates(),
    decreases ids.len(),
{
    if ids.len() > 0 {
        let rest = ids.drop_last();
        lemma_first_occurrences(rest);
        assert(ids =~= rest.push(ids.last()));
        let last = ids.last();
        assert forall|x: u64| ids.contains(x) <==> (rest.contains(x) || x == last) by {
            if ids.contains(x) {
                let k = choose|k: int| 0 <= k < ids.len() && ids[k] == x;
                if k < rest.len() {
                    assert(rest[k] == x);
                }
            }
            if rest.contains(x) {
                let k = choose|k: int| 0 <= k < rest.len() && rest[k] == x;
                assert(ids[k] == x);
            }
            if x == last {
                assert(ids[ids.len() - 1] == x);
            }
        }
        if !rest.contains(last) {
            let f = first_occurrences(rest);
            assert forall|x: u64| f.push(last).contains(x) <==> (f.contains(x) || x == last) by {
                if f.push(last).contains(x) {
                    let k = choose|k: int| 0 <= k < f.push(last).len() && f.push(last)[k] == x;
                    if k < f.len() {
                        assert(f[k] == x);
                    }
                }
                if f.contains(x) {
                    let k = choose|k: int| 0 <= k < f.len() && f[k] == x;
                    assert(f.push(last)[k] == x);
                }
                if x == last {
                    assert(f.push(last)[f.len() as int] == x);
                }
            }
        }
    }
}

/// Adds `id` to `seen` unless it is there already; tells whether it was added.
fn insert_if_new(seen: &mut Vec<u64>, id: u64) -> (added: bool)
    ensures
        added == !old(seen)@.contains(id),
        final(seen)@ == (if added { old(seen)@.push(id) } else { old(seen)@ }),
{
    let mut i: usize = 0;
    while i < seen.len()
        invariant
            i <= seen.len(),
            seen@ == old(seen)@,
            forall|k: int| 0 <= k < i ==> seen@[k] != id,
        decreases seen.len() - i,
    {
        if seen[i] == id {
            return false;
        }
        i = i + 1;
    }
    seen.push(id);
    true
}

/// The file ids of the expanded modules, each kept where it first occurs.
pub fn distinct_file_ids(ids: &Vec<u64>) -> (r: Vec<u64>)
    ensures
        r@ == first_occurrences(ids@),
{
    let mut seen: Vec<u64> = Vec::new();
    let mut i: usize = 0;
    while i < ids.len()
        invariant
            i <= ids.len(),
            seen@ == first_occurrences(ids@.take(i as int)),
        decreases ids.len() - i,
    {
        proof {
            lemma_first_occurrences(ids@.take(i as int));
        }
        insert_if_new(&mut seen, ids[i]);
        i = i + 1;
        assert(ids@.take(i as int).drop_last() =~= ids@.take(i - 1));
    }
    assert(ids@.take(ids.len() as int) =~= ids@);
    seen
}

/// A file of the expanded test module: its id, the place it was generated
/// from where that is not the file itself, its name and its content.
#[derive(Clone, Debug, PartialEq, Eq)]
pub struct ExpandedFile {
    pub id: u64,
    pub origin: Option<String>,
    pub file_name: String,
    pub content: String,
}

/// The ids of the files, in order.
pub open spec fn file_ids(files: Seq<ExpandedFile>) -> Seq<u64> {
    files.map_values(|f: ExpandedFile| f.id)
}

/// The files, each kept where its id first occurs.
pub open spec fn distinct_files(files: Seq<ExpandedFile>) -> Seq<ExpandedFile>
    decreases files.len(),
{
    if files.len() == 0 {
        Seq::empty()
    } else if file_ids(files.drop_last()).contains(files.last().id) {
        distinct_files(files.drop_last())
    } else {
        distinct_files(files.drop_last()).push(files.last())
    }
}

/// The text of one expanded file.
pub open spec fn expanded_file_view(f: ExpandedFile) -> Seq<char> {
    expanded_file_spec(
        match f.origin {
            Some(o) => Some(o@),
            None => None,
        },
        f.file_name@,
        f.content@,
    )
}

/// The files that are kept are those whose ids are kept.
pub proof fn lemma_distinct_files_ids(files: Seq<ExpandedFile>)
    ensures
        file_ids(distinct_files(files)) == first_occurrences(file_ids(files)),
    decreases files.len(),
{
    if files.len() > 0 {
        lemma_distinct_files_ids(files.drop_last());
        assert(file_ids(files).drop_last() =~= file_ids(files.drop_last()));
        assert(file_ids(files).last() == files.last().id);
        assert(file_ids(distinct_files(files.drop_last()).push(files.last()))
            =~= file_ids(distinct_files(files.drop_last())).push(files.last().id));
    }
}

/// The generated code that the expansion test compares: each file, kept
/// where its id first occurs, as its text, the texts set apart by a blank line.
pub fn generated_cairo_code(files: &Vec<ExpandedFile>) -> (r: String)
    ensures
        r@ == joined(distinct_files(files@).map_values(|f: ExpandedFile| expanded_file_view(f)), "\n\n"@),
{
    let mut seen: Vec<u64> = Vec::new();
    let mut texts: Vec<String> = Vec::new();
    let mut i: usize = 0;
    while i < files.len()
        invariant
            i <= files.len(),
            seen@ == file_ids(distinct_files(files@.take(i as int))),
            texts@.map_values(|t: String| t@)
                == distinct_files(files@.take(i as int)).map_values(|f: ExpandedFile| expanded_file_view(f)),
        decreases files.len() - i,
    {
        let ghost prefix = files@.take(i as int);
        proof {
            lemma_distinct_files_ids(prefix);
            lemma_first_occurrences(file_ids(prefix));
        }
        let file = &files[i];
        let ghost old_texts = texts@;
        let added = insert_if_new(&mut seen, file.id);
        if added {
            let text = expanded_file_text(
                match &file.origin {
                    Some(o) => Some(o.as_str()),
                    None => None,
                },
                file.file_name.as_str(),
                file.content.as_str(),
            );
            texts.push(text);
        }
        i = i + 1;
        let ghost next = files@.take(i as int);
        assert(next.drop_last() =~= prefix);
        assert(file_ids(distinct_files(prefix).push(files@[i - 1]))
            =~= file_ids(distinct_files(prefix)).push(files@[i - 1].id));
        if added {
            assert(distinct_files(next) == distinct_files(prefix).push(files@[i - 1]));
            assert(texts@.map_values(|t: String| t@)
                =~= old_texts.map_values(|t: String| t@).push(texts@.last()@));
            assert(distinct_files(next).map_values(|f: ExpandedFile| expanded_file_view(f))
                =~= distinct_files(prefix).map_values(|f: ExpandedFile| expanded_file_view(f))
                .push(expanded_file_view(files@[i - 1])));
        } else {
            assert(distinct_files(next) == distinct_files(prefix));
        }
    }
    assert(files@.take(files.len() as int) =~= files@);
    join_texts(&texts, "\n\n")
}

} // verus!
