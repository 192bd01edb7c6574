//! Rendering of submissions for the operator console: pure string
//! building, pinned character for character by spec-level sequence
//! concatenation. The loop prints what these return; nothing here does
//! any output itself.

use crate::model::{Dependency, Incompatibility, Submission, Version};
use vstd::prelude::*;

verus! {

pub open spec fn spec_digit(d: int) -> Seq<char> {
    if d == 0 {
        "0"@
    } else if d == 1 {
        "1"@
    } else if d == 2 {
        "2"@
    } else if d == 3 {
        "3"@
    } else if d == 4 {
        "4"@
    } else if d == 5 {
        "5"@
    } else if d == 6 {
        "6"@
    } else if d == 7 {
        "7"@
    } else if d == 8 {
        "8"@
    } else {
        "9"@
    }
}

/// The decimal rendering of a non-negative integer.
pub open spec fn spec_dec(n: int) -> Seq<char>
    recommends
        n >= 0,
    decreases n,
{
    if n < 10 {
        spec_digit(n)
    } else {
        spec_dec(n / 10) + spec_digit(n % 10)
    }
}

fn digit_str(d: u64) -> (r: &'static str)
    requires
        d < 10,
    ensures
        r@ == spec_digit(d as int),
{
    if d == 0 {
        "0"
    } else if d == 1 {
        "1"
    } else if d == 2 {
        "2"
    } else if d == 3 {
        "3"
    } else if d == 4 {
        "4"
    } else if d == 5 {
        "5"
    } else if d == 6 {
        "6"
    } else if d == 7 {
        "7"
    } else if d == 8 {
        "8"
    } else {
        "9"
    }
}

/// Render an unsigned integer in decimal.
pub fn u64_to_string(n: u64) -> (r: String)
    ensures
        r@ == spec_dec(n as int),
    decreases n,
{
    if n < 10 {
        digit_str(n).to_owned()
    } else {
        let mut s = u64_to_string(n / 10);
        s.append(digit_str(n % 10));
        s
    }
}

/// Render a non-negative page number or total in decimal.
pub fn i32_to_string(n: i32) -> (r: String)
    requires
        n >= 0,
    ensures
        r@ == spec_dec(n as int),
{
    u64_to_string(n as u64)
}

/// An optional field renders as its text, or as "None" when absent.
pub open spec fn spec_opt_text(o: Option<String>) -> Seq<char> {
    match o {
        Some(s) => s@,
        None => "None"@,
    }
}

fn opt_text(o: &Option<String>) -> (r: String)
    ensures
        r@ == spec_opt_text(*o),
{
    match o {
        Some(s) => s.clone(),
        None => "None".to_owned(),
    }
}

pub open spec fn spec_bool_text(b: bool) -> Seq<char> {
    if b {
        "true"@
    } else {
        "false"@
    }
}

fn bool_text(b: bool) -> (r: &'static str)
    ensures
        r@ == spec_bool_text(b),
{
    if b {
        "true"
    } else {
        "false"
    }
}

/// Texts joined by a comma and a space, with no trailing separator.
pub open spec fn spec_join_comma(parts: Seq<Seq<char>>) -> Seq<char>
    decreases parts.len(),
{
    if parts.len() == 0 {
        Seq::<char>::empty()
    } else if parts.len() == 1 {
        parts[0]
    } else {
        spec_join_comma(parts.drop_last()) + ", "@ + parts.last()
    }
}

fn join_comma(parts: &Vec<String>) -> (r: String)
    ensures
        r@ == spec_join_comma(parts.deep_view()),
{
    let mut out = String::new();
    let n = parts.len();
    let mut i: usize = 0;
    proof {
        assert(parts.deep_view().take(0) =~= Seq::<Seq<char>>::empty());
    }
    while i < n
        invariant
            0 <= i <= n,
            n == parts@.len(),
            n == parts.deep_view().len(),
            out@ == spec_join_comma(parts.deep_view().take(i as int)),
        decreases n - i,
    {
        if i > 0 {
            out.append(", ");
        }
        out.append(parts[i].as_str());
        proof {
            let dv = parts.deep_view();
            assert(dv[i as int] == parts@[i as int]@);
            assert(dv.take(i as int + 1).drop_last() =~= dv.take(i as int));
            assert(dv.take(i as int + 1).last() == dv[i as int]);
            if i == 0 {
                assert(out@ =~= spec_join_comma(dv.take(1)));
            }
        }
        i = i + 1;
    }
    proof {
        assert(parts.deep_view().take(n as int) =~= parts.deep_view());
    }
    out
}

/// The two-line template shared by dependency and incompatibility
/// entries, under a 1-based ordinal.
pub open spec fn spec_render_entry(
    ordinal: int,
    mod_id: Seq<char>,
    version: Seq<char>,
    importance: Seq<char>,
) -> Seq<char> {
    "    "@ + spec_dec(ordinal) + ". "@ + mod_id + "\n      - Version: "@ + version
        + "\n      - Importance: "@ + importance + "\n"@
}

fn render_entry(ordinal: usize, mod_id: &String, version: &String, importance: &String) -> (r:
    String)
    ensures
        r@ == spec_render_entry(ordinal as int, mod_id@, version@, importance@),
{
    let mut out = "    ".to_owned();
    let num = u64_to_string(ordinal as u64);
    out.append(num.as_str());
    out.append(". ");
    out.append(mod_id.as_str());
    out.append("\n      - Version: ");
    out.append(version.as_str());
    out.append("\n      - Importance: ");
    out.append(importance.as_str());
    out.append("\n");
    proof {
        assert(out@ =~= spec_render_entry(ordinal as int, mod_id@, version@, importance@));
    }
    out
}

pub open spec fn spec_render_dependency(d: Dependency, ordinal: int) -> Seq<char> {
    spec_render_entry(ordinal, d.mod_id@, d.version@, d.importance@)
}

pub open spec fn spec_render_incompatibility(d: Incompatibility, ordinal: int) -> Seq<char> {
    spec_render_entry(ordinal, d.mod_id@, d.version@, d.importance@)
}

/// All dependency entries in order, each under its 1-based ordinal.
pub open spec fn spec_render_dependencies(ds: Seq<Dependency>) -> Seq<char>
    decreases ds.len(),
{
    if ds.len() == 0 {
        Seq::<char>::empty()
    } else {
        spec_render_dependencies(ds.drop_last()) + spec_render_dependency(
            ds.last(),
            ds.len() as int,
        )
    }
}

/// All incompatibility entries in order, each under its 1-based
/// ordinal.
pub open spec fn spec_render_incompatibilities(ds: Seq<Incompatibility>) -> Seq<char>
    decreases ds.len(),
{
    if ds.len() == 0 {
        Seq::<char>::empty()
    } else {
        spec_render_incompatibilities(ds.drop_last()) + spec_render_incompatibility(
            ds.last(),
            ds.len() as int,
        )
    }
}

impl Dependency {
    /// Render one dependency entry under a 1-based ordinal.
    pub fn render(&self, ordinal: usize) -> (r: String)
        ensures
            r@ == spec_render_dependency(*self, ordinal as int),
    {
        render_entry(ordinal, &self.mod_id, &self.version, &self.importance)
    }
}

impl Incompatibility {
    /// Render one incompatibility entry under a 1-based ordinal.
    pub fn render(&self, ordinal: usize) -> (r: String)
        ensures
            r@ == spec_render_incompatibility(*self, ordinal as int),
    {
        render_entry(ordinal, &self.mod_id, &self.version, &self.importance)
    }
}

fn render_dependencies(ds: &Vec<Dependency>) -> (r: String)
    ensures
        r@ == spec_render_dependencies(ds@),
{
    let mut out = String::new();
    let n = ds.len();
    let mut i: usize = 0;
    proof {
        assert(ds@.take(0) =~= Seq::<Dependency>::empty());
    }
    while i < n
        invariant
            0 <= i <= n,
            n == ds@.len(),
            out@ == spec_render_dependencies(ds@.take(i as int)),
        decreases n - i,
    {
        let piece = ds[i].render(i + 1);
        out.append(piece.as_str());
        proof {
            assert(ds@.take(i as int + 1).drop_last() =~= ds@.take(i as int));
            assert(ds@.take(i as int + 1).last() == ds@[i as int]);
        }
        i = i + 1;
    }
    proof {
        assert(ds@.take(n as int) =~= ds@);
    }
    out
}

fn render_incompatibilities(ds: &Vec<Incompatibility>) -> (r: String)
    ensures
        r@ == spec_render_incompatibilities(ds@),
{
    let mut out = String::new();
    let n = ds.len();
    let mut i: usize = 0;
    proof {
        assert(ds@.take(0) =~= Seq::<Incompatibility>::empty());
    }
    while i < n
        invariant
            0 <= i <= n,
            n == ds@.len(),
            out@ == spec_render_incompatibilities(ds@.take(i as int)),
        decreases n - i,
    {
        let piece = ds[i].render(i + 1);
        out.append(piece.as_str());
        proof {
            assert(ds@.take(i as int + 1).drop_last() =~= ds@.take(i as int));
            assert(ds@.take(i as int + 1).last() == ds@[i as int]);
        }
        i = i + 1;
    }
    proof {
        assert(ds@.take(n as int) =~= ds@);
    }
    out
}

/// One version under its 1-based ordinal: version string, name,
/// description, compatibility tag, flags, the five platform targets
/// (absent ones as "None"), then any dependency and incompatibility
/// entries.
pub open spec fn spec_render_version(v: Version, ordinal: int) -> Seq<char> {
    spec_dec(ordinal) + ". "@ + v.version@ + "\n  - Name: "@ + v.name@ + "\n  - Description: "@
        + spec_opt_text(v.description) + "\n  - Geode: "@ + v.geode@ + "\n  - Early Load: "@
        + spec_bool_text(v.early_load) + "\n  - API: "@ + spec_bool_text(v.api)
        + "\n  - GD:\n    - Win: "@ + spec_opt_text(v.gd.win) + "\n    - Mac: "@ + spec_opt_text(
        v.gd.mac,
    ) + "\n    - Android 32: "@ + spec_opt_text(v.gd.android32) + "\n    - Android 64: "@
        + spec_opt_text(v.gd.android64) + "\n    - iOS: "@ + spec_opt_text(v.gd.ios) + "\n"@
        + (match v.dependencies {
        Some(ds) => "  - Dependencies:\n"@ + spec_render_dependencies(ds@),
        None => Seq::<char>::empty(),
    }) + (match v.incompatibilities {
        Some(ds) => "  - Incompatibilities:\n"@ + spec_render_incompatibilities(ds@),
        None => Seq::<char>::empty(),
    })
}

impl Version {
    /// Render one version under a 1-based ordinal.
    pub fn render(&self, ordinal: usize) -> (r: String)
        ensures
            r@ == spec_render_version(*self, ordinal as int),
    {
        let mut out = u64_to_string(ordinal as u64);
        out.append(". ");
        out.append(self.version.as_str());
        out.append("\n  - Name: ");
        out.append(self.name.as_str());
        out.append("\n  - Description: ");
        let description = opt_text(&self.description);
        out.append(description.as_str());
        out.append("\n  - Geode: ");
        out.append(self.geode.as_str());
        out.append("\n  - Early Load: ");
        out.append(bool_text(self.early_load));
        out.append("\n  - API: ");
        out.append(bool_text(self.api));
        out.append("\n  - GD:\n    - Win: ");
        let win = opt_text(&self.gd.win);
        out.append(win.as_str());
        out.append("\n    - Mac: ");
        let mac = opt_text(&self.gd.mac);
        out.append(mac.as_str());
        out.append("\n    - Android 32: ");
        let android32 = opt_text(&self.gd.android32);
        out.append(android32.as_str());
        out.append("\n    - Android 64: ");
        let android64 = opt_text(&self.gd.android64);
        out.append(android64.as_str());
        out.append("\n    - iOS: ");
        let ios = opt_text(&self.gd.ios);
        out.append(ios.as_str());
        out.append("\n");
        if let Some(ds) = &self.dependencies {
            out.append("  - Dependencies:\n");
            let body = render_dependencies(ds);
            out.append(body.as_str());
        }
        if let Some(ds) = &self.incompatibilities {
            out.append("  - Incompatibilities:\n");
            let body = render_incompatibilities(ds);
            out.append(body.as_str());
        }
        proof {
            assert(out@ =~= spec_render_version(*self, ordinal as int));
        }
        out
    }
}

/// All versions of a submission in order, each under its 1-based
/// ordinal.
pub open spec fn spec_render_versions(vs: Seq<Version>) -> Seq<char>
    decreases vs.len(),
{
    if vs.len() == 0 {
        Seq::<char>::empty()
    } else {
        spec_render_versions(vs.drop_last()) + spec_render_version(vs.last(), vs.len() as int)
    }
}

fn render_versions(vs: &Vec<Version>) -> (r: String)
    ensures
        r@ == spec_render_versions(vs@),
{
    let mut out = String::new();
    let n = vs.len();
    let mut i: usize = 0;
    proof {
        assert(vs@.take(0) =~= Seq::<Version>::empty());
    }
    while i < n
        invariant
            0 <= i <= n,
            n == vs@.len(),
            out@ == spec_render_versions(vs@.take(i as int)),
        decreases n - i,
    {
        let piece = vs[i].render(i + 1);
        out.append(piece.as_str());
        proof {
            assert(vs@.take(i as int + 1).drop_last() =~= vs@.take(i as int));
            assert(vs@.take(i as int + 1).last() == vs@[i as int]);
        }
        i = i + 1;
    }
    proof {
        assert(vs@.take(n as int) =~= vs@);
    }
    out
}

/// A whole submission: identifier, repository, tags, the delimited
/// About block, then every version. The changelog is deliberately not
/// rendered: it is present in the data but can be very large.
pub open spec fn spec_render_submission(s: Submission) -> Seq<char> {
    s.id@ + "\n- Repository: "@ + spec_opt_text(s.repository) + "\n- Tags: "@ + spec_join_comma(
        s.tags.deep_view(),
    ) + "\n- About\n----------------------------\n"@ + spec_opt_text(s.about)
        + "\n----------------------------\n- Versions:\n"@ + spec_render_versions(s.versions@)
}

impl Submission {
    /// Render a whole submission for the console.
    pub fn render(&self) -> (r: String)
        ensures
            r@ == spec_render_submission(*self),
    {
        let mut out = self.id.clone();
        out.append("\n- Repository: ");
        let repository = opt_text(&self.repository);
        out.append(repository.as_str());
        out.append("\n- Tags: ");
        let tags = join_comma(&self.tags);
        out.append(tags.as_str());
        out.append("\n- About\n----------------------------\n");
        let about = opt_text(&self.about);
        out.append(about.as_str());
        out.append("\n----------------------------\n- Versions:\n");
        let versions = render_versions(&self.versions);
        out.append(versions.as_str());
        proof {
            assert(out@ =~= spec_render_submission(*self));
        }
        out
    }
}

/// The footer under each rendered submission: the cursor over the
/// reported total, then the fixed command menu.
pub open spec fn spec_render_menu(page: int, count: int) -> Seq<char> {
    "---------------------\nSubmission "@ + spec_dec(page) + "/"@ + spec_dec(count)
        + "\n---------------------\nCommands:\n  - n: Next submission\n  - p: Previous submission\n  - <INDEX>: Go to submission\n  - v: Validate mod\n  - r: Reject mod\n  - q: Quit\n---------------------\n"@
}

/// Render the cursor line and command menu shown under a submission.
pub fn render_menu(page: i32, count: i32) -> (r: String)
    requires
        page >= 0,
        count >= 0,
    ensures
        r@ == spec_render_menu(page as int, count as int),
{
    let mut out = "---------------------\nSubmission ".to_owned();
    let page_text = i32_to_string(page);
    out.append(page_text.as_str());
    out.append("/");
    let count_text = i32_to_string(count);
    out.append(count_text.as_str());
    out.append(
        "\n---------------------\nCommands:\n  - n: Next submission\n  - p: Previous submission\n  - <INDEX>: Go to submission\n  - v: Validate mod\n  - r: Reject mod\n  - q: Quit\n---------------------\n",
    );
    proof {
        assert(out@ =~= spec_render_menu(page as int, count as int));
    }
    out
}

} // verus!
