//! The texts built from the configuration: the window title, the status
//! line, and the messages of the range checks.
use vstd::prelude::*;

use crate::config::GrafConfig;
use crate::text::{joined, decimal, decimal_text, has_substring, lemma_replace_absent, replace_all, replace_all_str};

verus! {

/// The status line format used when none is configured.
pub open spec fn default_status_format() -> Seq<char> {
    "Files: {files} | Links: {links} | Selected: {selected}"@
}

/// The status line: each placeholder of the format replaced in turn by its
/// value (`{files}`, `{links}`, `{selected}`, `{date}`, `{time}`, `{size}`,
/// `{ratio}`), each replacement applying to the text the previous ones left.
pub open spec fn status_text(
    format: Seq<char>,
    files: nat,
    links: nat,
    selected: Seq<char>,
    date: Seq<char>,
    time: Seq<char>,
    size: Seq<char>,
    ratio: Seq<char>,
) -> Seq<char> {
    let t = replace_all(format, "{files}"@, decimal(files));
    let t = replace_all(t, "{links}"@, decimal(links));
    let t = replace_all(t, "{selected}"@, selected);
    let t = replace_all(t, "{date}"@, date);
    let t = replace_all(t, "{time}"@, time);
    let t = replace_all(t, "{size}"@, size);
    replace_all(t, "{ratio}"@, ratio)
}

/// The format a configuration gives the status line.
pub open spec fn status_format_of(config: GrafConfig) -> Seq<char> {
    match config.display.status_format {
        Some(f) => f@,
        None => default_status_format(),
    }
}

/// What a selection shows as in the status line.
pub open spec fn selected_text(selected: Option<&str>) -> Seq<char> {
    match selected {
        Some(s) => s@,
        None => "none"@,
    }
}

/// The placeholders are non-empty texts.
proof fn lemma_placeholders_non_empty()
    ensures
        "{files}"@.len() > 0,
        "{links}"@.len() > 0,
        "{selected}"@.len() > 0,
        "{date}"@.len() > 0,
        "{time}"@.len() > 0,
        "{size}"@.len() > 0,
        "{ratio}"@.len() > 0,
        "{cwd}"@.len() > 0,
{
    reveal_strlit("{files}");
    reveal_strlit("{links}");
    reveal_strlit("{selected}");
    reveal_strlit("{date}");
    reveal_strlit("{time}");
    reveal_strlit("{size}");
    reveal_strlit("{ratio}");
    reveal_strlit("{cwd}");
}

impl GrafConfig {
    /// The window title: the configured title with `{cwd}` replaced by the
    /// name of the working directory.
    pub fn expand_border_title(&self, cwd_name: &str) -> (r: String)
        ensures
            r@ == replace_all(self.display.border_title@, "{cwd}"@, cwd_name@),
    {
        proof {
            lemma_placeholders_non_empty();
        }
        replace_all_str(self.display.border_title.as_str(), "{cwd}", cwd_name)
    }

    /// The status line for the given counts, selection, date, time and
    /// viewport texts.
    pub fn expand_status_at(
        &self,
        files: usize,
        links: usize,
        selected: Option<&str>,
        date: &str,
        time: &str,
        size_text: &str,
        ratio_text: &str,
    ) -> (r: String)
        ensures
            r@ == status_text(
                status_format_of(*self),
                files as nat,
                links as nat,
                selected_text(selected),
                date@,
                time@,
                size_text@,
                ratio_text@,
            ),
    {
        proof {
            lemma_placeholders_non_empty();
        }
        let format: &str = match &self.display.status_format {
            Some(f) => f.as_str(),
            None => "Files: {files} | Links: {links} | Selected: {selected}",
        };
        let files_text = decimal_text(files as u64);
        let links_text = decimal_text(links as u64);
        let sel: &str = match selected {
            Some(s) => s,
            None => "none",
        };
        let t = replace_all_str(format, "{files}", files_text.as_str());
        let t = replace_all_str(t.as_str(), "{links}", links_text.as_str());
        let t = replace_all_str(t.as_str(), "{selected}", sel);
        let t = replace_all_str(t.as_str(), "{date}", date);
        let t = replace_all_str(t.as_str(), "{time}", time);
        let t = replace_all_str(t.as_str(), "{size}", size_text);
        replace_all_str(t.as_str(), "{ratio}", ratio_text)
    }
}

// ---------------------------------------------------------------------------
// Range checks
// ---------------------------------------------------------------------------

/// The label length is outside 1 to 60.
pub open spec fn label_length_out_of_range(n: usize) -> bool {
    n < 1 || n > 60
}

/// The edge thickness is outside 1 to 3.
pub open spec fn edge_thickness_out_of_range(t: u16) -> bool {
    t < 1 || t > 3
}

/// `s` alone when `b` holds, nothing otherwise.
pub open spec fn message_if(b: bool, s: Seq<char>) -> Seq<Seq<char>> {
    if b {
        seq![s]
    } else {
        Seq::empty()
    }
}

/// The messages of the range checks of a configuration, in order: label
/// length, node size, edge thickness, zoom factor. The real-valued node size
/// and zoom factor come checked and written out by the caller.
pub open spec fn validation_messages(
    config: GrafConfig,
    node_size_text: Seq<char>,
    node_size_in_range: bool,
    zoom_factor_text: Seq<char>,
    zoom_factor_positive: bool,
) -> Seq<Seq<char>> {
    message_if(
        label_length_out_of_range(config.visual.label_max_length),
        "visual.label_max_length must be 1-60, got "@ + decimal(config.visual.label_max_length as nat),
    ) + message_if(!node_size_in_range, "visual.node_size must be 1.0-5.0, got "@ + node_size_text)
        + message_if(
        edge_thickness_out_of_range(config.visual.edge_thickness),
        "visual.edge_thickness must be 1-3, got "@ + decimal(config.visual.edge_thickness as nat),
    ) + message_if(!zoom_factor_positive, "interaction.zoom_factor must be > 0, got "@ + zoom_factor_text)
}

impl GrafConfig {
    /// The messages of the range checks: label length 1 to 60, node size 1.0
    /// to 5.0, edge thickness 1 to 3, zoom factor above 0, one message per
    /// failed check. The node size and zoom factor checks are done by the
    /// caller, which holds those real values and their text.
    pub fn validate(
        &self,
        node_size_text: &str,
        node_size_in_range: bool,
        zoom_factor_text: &str,
        zoom_factor_positive: bool,
    ) -> (r: Vec<String>)
        ensures
            r@.map_values(|m: String| m@) == validation_messages(
                *self,
                node_size_text@,
                node_size_in_range,
                zoom_factor_text@,
                zoom_factor_positive,
            ),
    {
        let mut errs: Vec<String> = Vec::new();
        let ghost mut acc: Seq<Seq<char>> = Seq::empty();
        let n = self.visual.label_max_length;
        if n < 1 || n > 60 {
            let num = decimal_text(n as u64);
            errs.push(joined("visual.label_max_length must be 1-60, got ", num.as_str()));
        }
        proof {
            acc = message_if(
                label_length_out_of_range(n),
                "visual.label_max_length must be 1-60, got "@ + decimal(n as nat),
            );
            assert(errs@.map_values(|m: String| m@) =~= acc);
        }
        if !node_size_in_range {
            let ghost before = errs@;
            errs.push(joined("visual.node_size must be 1.0-5.0, got ", node_size_text));
            assert(errs@.map_values(|m: String| m@) =~= before.map_values(|m: String| m@).push(
                "visual.node_size must be 1.0-5.0, got "@ + node_size_text@,
            ));
        }
        proof {
            let next = message_if(!node_size_in_range, "visual.node_size must be 1.0-5.0, got "@ + node_size_text@);
            assert(errs@.map_values(|m: String| m@) =~= acc + next);
            acc = acc + next;
        }
        let t = self.visual.edge_thickness;
        if t < 1 || t > 3 {
            let num = decimal_text(t as u64);
            let ghost before = errs@;
            errs.push(joined("visual.edge_thickness must be 1-3, got ", num.as_str()));
            assert(errs@.map_values(|m: String| m@) =~= before.map_values(|m: String| m@).push(
                "visual.edge_thickness must be 1-3, got "@ + decimal(t as nat),
            ));
        }
        proof {
            let next = message_if(
                edge_thickness_out_of_range(t),
                "visual.edge_thickness must be 1-3, got "@ + decimal(t as nat),
            );
            assert(errs@.map_values(|m: String| m@) =~= acc + next);
            acc = acc + next;
        }
        if !zoom_factor_positive {
            let ghost before = errs@;
            errs.push(joined("interaction.zoom_factor must be > 0, got ", zoom_factor_text));
            assert(errs@.map_values(|m: String| m@) =~= before.map_values(|m: String| m@).push(
                "interaction.zoom_factor must be > 0, got "@ + zoom_factor_text@,
            ));
        }
        proof {
            let next = message_if(!zoom_factor_positive, "interaction.zoom_factor must be > 0, got "@ + zoom_factor_text@);
            assert(errs@.map_values(|m: String| m@) =~= acc + next);
        }
        errs
    }
}

/// The default label length and edge thickness pass the range checks: a
/// configuration with those values and valid real-valued settings has no
/// error.
pub proof fn lemma_default_ranges_pass(
    config: GrafConfig,
    node_size_text: Seq<char>,
    zoom_factor_text: Seq<char>,
)
    requires
        config.visual.label_max_length == 20,
        config.visual.edge_thickness == 1,
    ensures
        validation_messages(config, node_size_text, true, zoom_factor_text, true) == Seq::<Seq<char>>::empty(),
{
    assert(validation_messages(config, node_size_text, true, zoom_factor_text, true) =~= Seq::<Seq<char>>::empty());
}

/// A check fails exactly when its setting is out of range: there is a
/// message for each failing check and for no other.
pub proof fn lemma_messages_count(
    config: GrafConfig,
    node_size_text: Seq<char>,
    node_size_in_range: bool,
    zoom_factor_text: Seq<char>,
    zoom_factor_positive: bool,
)
    ensures
        validation_messages(config, node_size_text, node_size_in_range, zoom_factor_text, zoom_factor_positive).len()
            == (if label_length_out_of_range(config.visual.label_max_length) { 1int } else { 0 })
            + (if !node_size_in_range { 1int } else { 0 })
            + (if edge_thickness_out_of_range(config.visual.edge_thickness) { 1int } else { 0 })
            + (if !zoom_factor_positive { 1int } else { 0 }),
{
}

/// A window title without `{cwd}` is shown as written.
pub proof fn lemma_title_without_placeholder(title: Seq<char>, cwd: Seq<char>)
    requires
        !has_substring(title, "{cwd}"@),
    ensures
        replace_all(title, "{cwd}"@, cwd) == title,
{
    lemma_placeholders_non_empty();
    lemma_replace_absent(title, "{cwd}"@, cwd);
}

/// A status format without placeholders is shown as written, whatever the
/// counts, selection, date, time and viewport are.
pub proof fn lemma_status_without_placeholders(
    format: Seq<char>,
    files: nat,
    links: nat,
    selected: Seq<char>,
    date: Seq<char>,
    time: Seq<char>,
    size: Seq<char>,
    ratio: Seq<char>,
)
    requires
        !has_substring(format, "{files}"@),
        !has_substring(format, "{links}"@),
        !has_substring(format, "{selected}"@),
        !has_substring(format, "{date}"@),
        !has_substring(format, "{time}"@),
        !has_substring(format, "{size}"@),
        !has_substring(format, "{ratio}"@),
    ensures
        status_text(format, files, links, selected, date, time, size, ratio) == format,
{
    lemma_placeholders_non_empty();
    lemma_replace_absent(format, "{files}"@, decimal(files));
    lemma_replace_absent(format, "{links}"@, decimal(links));
    lemma_replace_absent(format, "{selected}"@, selected);
    lemma_replace_absent(format, "{date}"@, date);
    lemma_replace_absent(format, "{time}"@, time);
    lemma_replace_absent(format, "{size}"@, size);
    lemma_replace_absent(format, "{ratio}"@, ratio);
}

} // verus!
