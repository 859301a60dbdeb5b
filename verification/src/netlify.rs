//! Formatting of site and deploy listings for the terminal.
//!
//! The exact lines printed for each resource are stated here as spec
//! functions; colorization is delegated to the `colored` crate behind
//! trusted wrappers, whose output depends on the environment (a terminal,
//! `NO_COLOR`), so the contracts allow both the plain and the wrapped form.

use vstd::prelude::*;
use colored::Colorize;

verus! {

/// A site as the remote listing endpoint reports it; only the fields this
/// tool consumes.
pub struct Site {
    pub id: Option<String>,
    pub name: Option<String>,
}

/// A deploy as the remote listing endpoint reports it; only the fields this
/// tool consumes.
pub struct Deploy {
    pub build_id: Option<String>,
    pub branch: Option<String>,
    pub state: Option<String>,
    pub commit_ref: Option<String>,
    pub commit_url: Option<String>,
    pub created_at: Option<String>,
}

/// An absent optional field renders as the literal word `unknown`.
pub open spec fn spec_or_unknown(o: Option<String>) -> Seq<char> {
    match o {
        Some(s) => s@,
        None => "unknown"@,
    }
}

/// `s` wrapped in the ANSI SGR sequence for color `code`.
pub open spec fn sgr_wrapped(code: Seq<char>, s: Seq<char>) -> Seq<char> {
    "\u{1b}["@ + code + "m"@ + s + "\u{1b}[0m"@
}

/// Whether `s` holds the ANSI reset sequence somewhere.
pub open spec fn contains_reset(s: Seq<char>) -> bool {
    exists|i: int| 0 <= i && i + 4 <= s.len() && #[trigger] s.subrange(i, i + 4) == "\u{1b}[0m"@
}

/// What colorizing `inp` with color `code` may render: the input itself
/// (colors disabled) or the input wrapped in the SGR sequence (colors
/// enabled). An input that already holds a reset sequence is re-escaped by
/// the colorizer, so nothing is claimed of it.
pub open spec fn painted(out: Seq<char>, inp: Seq<char>, code: Seq<char>) -> bool {
    !contains_reset(inp) ==> (out == inp || out == sgr_wrapped(code, inp))
}

/// Relies on `colored::Colorize::blue` and `ColoredString`'s `Display`:
/// the rendered string is the input itself when colorization is disabled,
/// and the input wrapped in the blue SGR sequence (`ESC [ 3 4 m`) when it
/// is enabled and the input holds no reset sequence.
#[verifier::external_body]
fn paint_blue(s: &str) -> (r: String)
    ensures
        painted(r@, s@, "34"@),
{
    s.blue().to_string()
}

/// Relies on `colored::Colorize::yellow`, as `paint_blue` does on `blue`;
/// the yellow SGR code is `33`.
#[verifier::external_body]
fn paint_yellow(s: &str) -> (r: String)
    ensures
        painted(r@, s@, "33"@),
{
    s.yellow().to_string()
}

/// Relies on `colored::Colorize::cyan`, as `paint_blue` does on `blue`;
/// the cyan SGR code is `36`.
#[verifier::external_body]
fn paint_cyan(s: &str) -> (r: String)
    ensures
        painted(r@, s@, "36"@),
{
    s.cyan().to_string()
}

/// Relies on `colored::Colorize::magenta`, as `paint_blue` does on `blue`;
/// the magenta SGR code is `35`.
#[verifier::external_body]
fn paint_magenta(s: &str) -> (r: String)
    ensures
        painted(r@, s@, "35"@),
{
    s.magenta().to_string()
}

/// The field's value, or the literal `unknown` where it is absent.
fn or_unknown(o: &Option<String>) -> (r: String)
    ensures
        r@ == spec_or_unknown(*o),
{
    match o {
        Some(s) => s.clone(),
        None => String::from_str("unknown"),
    }
}

/// One output line per site, in the order given, each the site's name.
pub fn site_lines(sites: &Vec<Site>) -> (r: Vec<String>)
    requires
        forall|i: int| 0 <= i < sites@.len() ==> (#[trigger] sites@[i]).name is Some,
    ensures
        r@.len() == sites@.len(),
        forall|i: int| 0 <= i < sites@.len() ==> (#[trigger] r@[i])@ == (sites@[i].name->0)@,
{
    let mut r: Vec<String> = Vec::new();
    let mut i: usize = 0;
    while i < sites.len()
        invariant
            forall|k: int| 0 <= k < sites@.len() ==> (#[trigger] sites@[k]).name is Some,
            0 <= i <= sites@.len(),
            r@.len() == i,
            forall|k: int| 0 <= k < i ==> (#[trigger] r@[k])@ == (sites@[k].name->0)@,
        decreases sites@.len() - i,
    {
        let name = sites[i].name.as_ref().unwrap().clone();
        r.push(name);
        i = i + 1;
    }
    r
}

/// Whether a site's name matches the requested target, both taken as
/// optional values: two absent values match, as an equality of options does.
pub open spec fn spec_name_matches(s: Site, target: Option<String>) -> bool {
    match (s.name, target) {
        (Some(a), Some(b)) => a@ == b@,
        (None, None) => true,
        _ => false,
    }
}

/// The index of the first site whose name equals the target, if any.
pub fn find_site(sites: &Vec<Site>, target: &Option<String>) -> (r: Option<usize>)
    ensures
        match r {
            Some(i) => {
                &&& i < sites@.len()
                &&& spec_name_matches(sites@[i as int], *target)
                &&& forall|j: int| 0 <= j < i ==> !spec_name_matches(#[trigger] sites@[j], *target)
            },
            None => forall|j: int|
                0 <= j < sites@.len() ==> !spec_name_matches(#[trigger] sites@[j], *target),
        },
{
    let mut i: usize = 0;
    while i < sites.len()
        invariant
            0 <= i <= sites@.len(),
            forall|j: int| 0 <= j < i ==> !spec_name_matches(#[trigger] sites@[j], *target),
        decreases sites@.len() - i,
    {
        let hit = match (&sites[i].name, target) {
            (Some(a), Some(b)) => *a == *b,
            (None, None) => true,
            _ => false,
        };
        if hit {
            return Some(i);
        }
        i = i + 1;
    }
    None
}

/// The parameters of the site listing request: the invocation's target as
/// the name filter, and the fixed selector `all`.
pub fn sites_query(target: &Option<String>) -> (r: (Option<String>, String))
    ensures
        r.0 is Some <==> *target is Some,
        *target is Some ==> (r.0->0)@ == (target->0)@,
        r.1@ == "all"@,
{
    let name = match target {
        Some(t) => Some(t.clone()),
        None => None,
    };
    (name, String::from_str("all"))
}

/// The header line that precedes the deploy blocks of a site.
pub open spec fn spec_deploys_header(name: Seq<char>) -> Seq<char> {
    "Deploys for "@ + name + ":"@
}

/// How many deploy blocks a listing of `n` deploys renders: the first five.
pub open spec fn spec_block_count(n: nat) -> nat {
    if n < 5 {
        n
    } else {
        5
    }
}

/// However many deploys the server returns, at most five blocks render.
pub proof fn lemma_at_most_five_blocks(n: nat)
    ensures
        spec_block_count(n) <= 5,
{
}

/// An absent optional deploy field renders as the literal word `unknown`.
pub proof fn lemma_absent_field_renders_unknown(o: Option<String>)
    requires
        o is None,
    ensures
        spec_or_unknown(o) == "unknown"@,
{
}

/// The seven lines rendered for one deploy: a title line, four detail
/// lines (the created timestamp is printed again on the updated and
/// published lines), and a blank separator.
/// The colorized fields may each carry their SGR wrapping or not.
pub open spec fn block_shape(lines: Seq<String>, d: Deploy) -> bool {
    &&& lines.len() == 7
    &&& (exists|b: Seq<char>, br: Seq<char>|
        #![trigger painted(b, spec_or_unknown(d.build_id), "34"@), painted(br, spec_or_unknown(d.branch), "33"@)]
        {
            &&& painted(b, spec_or_unknown(d.build_id), "34"@)
            &&& painted(br, spec_or_unknown(d.branch), "33"@)
            &&& lines[0]@ == "[Build ID: "@ + b + "] branch "@ + br + " - "@ + (d.state->0)@
        })
    &&& (exists|cr: Seq<char>|
        #[trigger] painted(cr, spec_or_unknown(d.commit_ref), "36"@) && lines[1]@ == "|- Commit Ref: "@
            + cr)
    &&& (exists|cu: Seq<char>|
        #[trigger] painted(cu, spec_or_unknown(d.commit_url), "36"@) && lines[2]@ == "|- Commit URL: "@
            + cu)
    &&& (exists|ca: Seq<char>|
        #[trigger] painted(ca, (d.created_at->0)@, "35"@) && lines[3]@ == "|- Created: "@ + ca)
    &&& (exists|ca: Seq<char>|
        #[trigger] painted(ca, (d.created_at->0)@, "35"@) && lines[4]@ == "|- Updated: "@ + ca)
    &&& (exists|ca: Seq<char>|
        #[trigger] painted(ca, (d.created_at->0)@, "35"@) && lines[5]@ == "|- Published: "@ + ca)
    &&& lines[6]@ == Seq::<char>::empty()
}

/// The block of lines for one deploy, fields colorized as the terminal
/// allows, absent optional fields rendered as `unknown`.
pub fn deploy_block(d: &Deploy) -> (r: Vec<String>)
    requires
        d.state is Some,
        d.created_at is Some,
    ensures
        block_shape(r@, *d),
{
    let b = paint_blue(or_unknown(&d.build_id).as_str());
    let br = paint_yellow(or_unknown(&d.branch).as_str());
    let state = d.state.as_ref().unwrap().clone();
    let cr = paint_cyan(or_unknown(&d.commit_ref).as_str());
    let cu = paint_cyan(or_unknown(&d.commit_url).as_str());
    let created = d.created_at.as_ref().unwrap().clone();
    let ca = paint_magenta(created.as_str());

    let mut r: Vec<String> = Vec::new();
    r.push(
        String::from_str("[Build ID: ").concat(b.as_str()).concat("] branch ").concat(
            br.as_str(),
        ).concat(" - ").concat(state.as_str()),
    );
    r.push(String::from_str("|- Commit Ref: ").concat(cr.as_str()));
    r.push(String::from_str("|- Commit URL: ").concat(cu.as_str()));
    r.push(String::from_str("|- Created: ").concat(ca.as_str()));
    r.push(String::from_str("|- Updated: ").concat(ca.as_str()));
    r.push(String::from_str("|- Published: ").concat(ca.as_str()));
    r.push(String::new());
    proof {
        assert(painted(b@, spec_or_unknown(d.build_id), "34"@));
        assert(painted(br@, spec_or_unknown(d.branch), "33"@));
        assert(painted(ca@, (d.created_at->0)@, "35"@));
        assert(r@[0]@ == "[Build ID: "@ + b@ + "] branch "@ + br@ + " - "@ + (d.state->0)@);
    }
    r
}

/// The full listing for a site's deploys: the header line, then one block
/// for each of the first five deploys, in server order.
pub fn deploys_output(site_name: &String, deploys: &Vec<Deploy>) -> (r: Vec<String>)
    requires
        forall|i: int|
            0 <= i < spec_block_count(deploys@.len() as nat) ==> (#[trigger] deploys@[i]).state
                is Some && deploys@[i].created_at is Some,
    ensures
        r@.len() == 1 + 7 * spec_block_count(deploys@.len() as nat),
        r@[0]@ == spec_deploys_header(site_name@),
        forall|k: int|
            0 <= k < spec_block_count(deploys@.len() as nat) ==> block_shape(
                #[trigger] r@.subrange(1 + 7 * k, 8 + 7 * k),
                deploys@[k],
            ),
{
    let mut r: Vec<String> = Vec::new();
    r.push(String::from_str("Deploys for ").concat(site_name.as_str()).concat(":"));
    let n = deploys.len();
    let count: usize = if n < 5 {
        n
    } else {
        5
    };
    let mut i: usize = 0;
    while i < count
        invariant
            count == spec_block_count(deploys@.len() as nat),
            count <= deploys@.len(),
            forall|k: int|
                0 <= k < count ==> (#[trigger] deploys@[k]).state is Some && deploys@[k].created_at
                    is Some,
            0 <= i <= count,
            r@.len() == 1 + 7 * i,
            r@[0]@ == spec_deploys_header(site_name@),
            forall|k: int|
                0 <= k < i ==> block_shape(#[trigger] r@.subrange(1 + 7 * k, 8 + 7 * k), deploys@[k]),
        decreases count - i,
    {
        let ghost r_before = r@;
        let mut block = deploy_block(&deploys[i]);
        let ghost block_view = block@;
        r.append(&mut block);
        proof {
            assert forall|k: int| 0 <= k < i + 1 implies block_shape(
                #[trigger] r@.subrange(1 + 7 * k, 8 + 7 * k),
                deploys@[k],
            ) by {
                if k < i {
                    assert(r@.subrange(1 + 7 * k, 8 + 7 * k) =~= r_before.subrange(
                        1 + 7 * k,
                        8 + 7 * k,
                    ));
                } else {
                    assert(r@.subrange(1 + 7 * k, 8 + 7 * k) =~= block_view);
                }
            }
        }
        i = i + 1;
    }
    r
}

/// The report printed when a remote call fails: the banner, a line break,
/// and the error's own rendering.
pub fn fetch_failure_report(detail: &str) -> (r: String)
    ensures
        r@ == "Something went wrong while fetching sites!\n "@ + detail@,
{
    String::from_str("Something went wrong while fetching sites!\n ").concat(detail)
}

/// The message for a deploy listing whose target names no returned site.
pub fn no_site_message(target: &str) -> (r: String)
    ensures
        r@ == "no site named '"@ + target@ + "'"@,
{
    String::from_str("no site named '").concat(target).concat("'")
}

} // verus!
