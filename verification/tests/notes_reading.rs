use graf::notes::{
    is_excluded, keep_note, link_counts, note_tags, note_title, resolve_links, select_note_paths, wikilink_targets,
};

fn strings(items: &[&str]) -> Vec<String> {
    items.iter().map(|s| s.to_string()).collect()
}

#[test]
fn title_from_front_matter() {
    let text = "---\ntitle: \"My Note\"\ntags: [a, b]\n---\n# Heading\nbody";
    assert_eq!(note_title(text, "file"), "My Note");
    let single = "---\ntitle: 'Single'\n---\n";
    assert_eq!(note_title(single, "file"), "Single");
    let bare = "---\ntitle: Bare title  \n---\n";
    assert_eq!(note_title(bare, "file"), "Bare title");
}

#[test]
fn title_from_heading_or_file_name() {
    assert_eq!(note_title("intro\n# First heading \n# Second", "file"), "First heading");
    assert_eq!(note_title("---\ntags: [x]\n---\n# Heading", "file"), "Heading");
    assert_eq!(note_title("no heading here\n## sub", "notes/file"), "notes/file");
    assert_eq!(note_title("", "empty"), "empty");
    // An empty front matter title falls back to the heading.
    assert_eq!(note_title("---\ntitle: \"\"\n---\n# H", "file"), "H");
}

#[test]
fn front_matter_needs_both_fences() {
    // Without a closing fence there is no front matter.
    assert_eq!(note_title("---\ntitle: Lost\n# Found", "file"), "Found");
    assert_eq!(note_tags("---\ntags: [a]\nno end"), Vec::<String>::new());
    // A fence that is not on the first line opens nothing.
    assert_eq!(note_tags("text\n---\ntags: [a]\n---"), Vec::<String>::new());
}

#[test]
fn tags_from_front_matter() {
    assert_eq!(note_tags("---\ntags: [rust, \"cli\" , 'tui']\n---\n"), strings(&["rust", "cli", "tui"]));
    assert_eq!(note_tags("---\ntags: [a, , b]\n---"), strings(&["a", "b"]));
    assert_eq!(note_tags("---\ntags: single\n---"), strings(&["single"]));
    assert_eq!(note_tags("---\ntags: []\n---"), Vec::<String>::new());
    assert_eq!(note_tags("# no front matter"), Vec::<String>::new());
}

#[test]
fn wikilinks_in_order() {
    let text = "See [[Alpha]] and [[ Beta | shown ]], then [[Alpha]] again.";
    assert_eq!(wikilink_targets(text), strings(&["Alpha", "Beta", "Alpha"]));
    assert_eq!(wikilink_targets("[[]] [[|x]] [[Gamma]]"), strings(&["Gamma"]));
    assert_eq!(wikilink_targets("[[Open without close"), Vec::<String>::new());
    assert_eq!(wikilink_targets("plain [text] here"), Vec::<String>::new());
}

#[test]
fn excluded_files() {
    let excluded = strings(&["old/a.md"]);
    let patterns = strings(&["*.bak", "archive/"]);
    assert!(is_excluded("old/a.md", &excluded, &patterns));
    assert!(is_excluded("archive/b.md", &excluded, &patterns));
    assert!(!is_excluded("notes/c.md", &excluded, &patterns));
    assert!(!is_excluded("notes/c.md", &strings(&[]), &strings(&[])));
}

#[test]
fn note_paths_respect_the_filters() {
    let paths = strings(&["a.md", "archive/b.md", "c.md", "d.md", "e.md"]);
    let excluded = strings(&[]);
    let patterns = strings(&["archive/"]);
    assert_eq!(select_note_paths(&paths, &excluded, &patterns, 0), vec![0, 2, 3, 4]);
    assert_eq!(select_note_paths(&paths, &excluded, &patterns, 2), vec![0, 2]);
    assert_eq!(select_note_paths(&paths, &strings(&["c.md"]), &strings(&[]), 3), vec![0, 1, 3]);
    assert_eq!(select_note_paths(&strings(&[]), &excluded, &patterns, 1), Vec::<usize>::new());
}

#[test]
fn links_resolve_by_title_in_any_case() {
    let titles = strings(&["Alpha", "Beta", "Gamma"]);
    let targets = vec![
        strings(&["beta", "BETA", "Missing", "alpha", "Gamma"]),
        strings(&["ALPHA"]),
        strings(&[]),
    ];
    let links = resolve_links(&titles, &targets);
    assert_eq!(links, vec![vec![1, 2], vec![0], vec![]]);
}

#[test]
fn links_are_simple() {
    // A note never links to itself, and each target appears once.
    let titles = strings(&["Same", "Other"]);
    let targets = vec![strings(&["same", "other", "Other", "SAME"]), strings(&["other"])];
    let links = resolve_links(&titles, &targets);
    assert_eq!(links, vec![vec![1], vec![]]);
    for (i, row) in links.iter().enumerate() {
        for (k, j) in row.iter().enumerate() {
            assert!(*j < titles.len());
            assert_ne!(*j, i);
            assert!(!row[..k].contains(j));
        }
    }
}

#[test]
fn notes_kept_by_tags_and_links() {
    let excluded = strings(&["draft", "private"]);
    assert!(keep_note(&strings(&["rust"]), &excluded, 0, 0));
    assert!(!keep_note(&strings(&["rust", "draft"]), &excluded, 3, 0));
    assert!(!keep_note(&strings(&["rust"]), &excluded, 1, 2));
    assert!(keep_note(&strings(&[]), &strings(&[]), 2, 2));
}

#[test]
fn connections_count_both_ends() {
    // 0 -> 1, 0 -> 2, 1 -> 0, 2 -> (nothing), 3 -> 2
    let links = vec![vec![1, 2], vec![0], vec![], vec![2]];
    let counts = link_counts(&links);
    assert_eq!(counts, vec![3, 2, 2, 1]);
    let total: usize = links.iter().map(|l| l.len()).sum();
    assert_eq!(counts.iter().sum::<usize>(), 2 * total);
    assert_eq!(link_counts(&Vec::new()), Vec::<usize>::new());
}

#[test]
fn link_written_as_a_title_is_kept() {
    // "ALPHA" is written exactly as the second title, and leads to the first
    // note with that title in any letter case.
    let titles = strings(&["Alpha", "ALPHA", "Beta"]);
    let targets = vec![strings(&[]), strings(&[]), strings(&["ALPHA", "Beta"])];
    assert_eq!(resolve_links(&titles, &targets), vec![vec![], vec![], vec![0]]);
    // From the first note itself, the same link leads back to it and is dropped.
    let targets = vec![strings(&["ALPHA"]), strings(&[]), strings(&[])];
    assert_eq!(resolve_links(&titles, &targets), vec![vec![], vec![], vec![]]);
}
