//! Display-ready text for every step of the pipeline.
//!
//! The previewer renders the outbound request before it is sent, and the
//! reporter renders outcomes uniformly: one header line naming the
//! operation, a success or failure banner, then the payload or the error
//! detail.  Every function's contract pins the exact text produced.

use vstd::prelude::*;

use crate::action::ActionDescriptor;
use crate::action::Operation;
use crate::action::Param;
use crate::action::ResourceKind;
use crate::outcome::Outcome;
use crate::outcome::Payload;
use crate::paint::blue_bold;
use crate::paint::green;
use crate::paint::paint_blue_bold;
use crate::paint::paint_green;
use crate::paint::paint_red;
use crate::paint::paint_red_bold;
use crate::paint::paint_white_bold;
use crate::paint::paint_white_bold_underline;
use crate::paint::red;
use crate::paint::red_bold;
use crate::paint::white_bold;
use crate::paint::white_bold_underline;
use crate::text::indent_embedded;
use crate::text::indented;

verus! {

/// The singular noun for a resource kind.
pub open spec fn kind_noun(k: ResourceKind) -> Seq<char> {
    match k {
        ResourceKind::Droplet => "droplet"@,
        ResourceKind::Image => "image"@,
        ResourceKind::Domain => "domain"@,
        ResourceKind::DnsRecord => "DNS record"@,
        ResourceKind::SshKey => "SSH key"@,
        ResourceKind::Account => "account"@,
        ResourceKind::Region => "region"@,
        ResourceKind::Size => "size"@,
    }
}

/// The plural noun for a resource kind.
pub open spec fn kind_noun_plural(k: ResourceKind) -> Seq<char> {
    match k {
        ResourceKind::Droplet => "droplets"@,
        ResourceKind::Image => "images"@,
        ResourceKind::Domain => "domains"@,
        ResourceKind::DnsRecord => "DNS records"@,
        ResourceKind::SshKey => "SSH keys"@,
        ResourceKind::Account => "accounts"@,
        ResourceKind::Region => "regions"@,
        ResourceKind::Size => "sizes"@,
    }
}

/// The name an operation goes by in the request preview.
pub open spec fn op_text(op: Operation) -> Seq<char> {
    match op {
        Operation::Read => "read"@,
        Operation::List => "list"@,
        Operation::Create => "create"@,
        Operation::Update => "update"@,
        Operation::Delete => "delete"@,
        Operation::CustomAction { name } => name@,
    }
}

/// The verb phrase that opens an operation's label.
pub open spec fn verb_text(op: Operation) -> Seq<char> {
    match op {
        Operation::Read => "Displaying"@,
        Operation::List => "Retrieving all"@,
        Operation::Create => "Creating"@,
        Operation::Update => "Updating"@,
        Operation::Delete => "Deleting"@,
        Operation::CustomAction { name } => "Requesting "@ + name@ + " for"@,
    }
}

/// The label identifying the operation in progress, independent of the
/// specific resource instance.
pub open spec fn label_text(d: ActionDescriptor) -> Seq<char> {
    verb_text(d.operation) + " "@ + if d.operation is List {
        kind_noun_plural(d.resource_kind)
    } else {
        kind_noun(d.resource_kind)
    }
}

/// The singular noun for a resource kind.
pub fn kind_noun_str(k: ResourceKind) -> (r: &'static str)
    ensures
        r@ == kind_noun(k),
{
    match k {
        ResourceKind::Droplet => "droplet",
        ResourceKind::Image => "image",
        ResourceKind::Domain => "domain",
        ResourceKind::DnsRecord => "DNS record",
        ResourceKind::SshKey => "SSH key",
        ResourceKind::Account => "account",
        ResourceKind::Region => "region",
        ResourceKind::Size => "size",
    }
}

/// The plural noun for a resource kind.
pub fn kind_noun_plural_str(k: ResourceKind) -> (r: &'static str)
    ensures
        r@ == kind_noun_plural(k),
{
    match k {
        ResourceKind::Droplet => "droplets",
        ResourceKind::Image => "images",
        ResourceKind::Domain => "domains",
        ResourceKind::DnsRecord => "DNS records",
        ResourceKind::SshKey => "SSH keys",
        ResourceKind::Account => "accounts",
        ResourceKind::Region => "regions",
        ResourceKind::Size => "sizes",
    }
}

/// The name an operation goes by in the request preview.
pub fn op_name(op: &Operation) -> (r: String)
    ensures
        r@ == op_text(*op),
{
    match op {
        Operation::Read => String::from_str("read"),
        Operation::List => String::from_str("list"),
        Operation::Create => String::from_str("create"),
        Operation::Update => String::from_str("update"),
        Operation::Delete => String::from_str("delete"),
        Operation::CustomAction { name } => String::from_str(name.as_str()),
    }
}

/// The verb phrase that opens an operation's label.
pub fn verb(op: &Operation) -> (r: String)
    ensures
        r@ == verb_text(*op),
{
    match op {
        Operation::Read => String::from_str("Displaying"),
        Operation::List => String::from_str("Retrieving all"),
        Operation::Create => String::from_str("Creating"),
        Operation::Update => String::from_str("Updating"),
        Operation::Delete => String::from_str("Deleting"),
        Operation::CustomAction { name } => String::from_str("Requesting ").concat(
            name.as_str(),
        ).concat(" for"),
    }
}

/// The label identifying the operation in progress.
pub fn label(d: &ActionDescriptor) -> (r: String)
    ensures
        r@ == label_text(*d),
{
    let mut out = verb(&d.operation);
    out.append(" ");
    let noun = match &d.operation {
        Operation::List => kind_noun_plural_str(d.resource_kind),
        _ => kind_noun_str(d.resource_kind),
    };
    out.append(noun);
    out
}

/// An information line: a bold blue marker, then the bold text.
pub open spec fn info_text(text: Seq<char>) -> Seq<char> {
    blue_bold("::"@) + " "@ + white_bold(text)
}

/// Render an information line.
pub fn info_line(text: &str) -> (r: String)
    ensures
        r@ == info_text(text@),
{
    let mut out = paint_blue_bold("::");
    out.append(" ");
    let body = paint_white_bold(text);
    out.append(body.as_str());
    proof {
        assert(out@ =~= info_text(text@));
    }
    out
}

/// The header line of a report: the operation's label, the primary
/// target (the first parameter, underlined) if there is one, and a
/// trailing ellipsis.
pub open spec fn header_text(d: ActionDescriptor) -> Seq<char> {
    blue_bold("::"@) + " "@ + white_bold(label_text(d)) + (if d.parameters@.len() > 0 {
        " "@ + white_bold_underline(d.parameters@[0].value@)
    } else {
        Seq::empty()
    }) + white_bold("..."@)
}

/// Render the header line of a report.
pub fn header_line(d: &ActionDescriptor) -> (r: String)
    ensures
        r@ == header_text(*d),
{
    let mut out = paint_blue_bold("::");
    out.append(" ");
    let lbl = label(d);
    let lbl_painted = paint_white_bold(lbl.as_str());
    out.append(lbl_painted.as_str());
    if d.parameters.len() > 0 {
        out.append(" ");
        let target = paint_white_bold_underline(d.parameters[0].value.as_str());
        out.append(target.as_str());
    }
    let dots = paint_white_bold("...");
    out.append(dots.as_str());
    proof {
        assert(out@ =~= header_text(*d));
    }
    out
}

/// One parameter as it appears in the request preview.
pub open spec fn param_text(p: Param) -> Seq<char> {
    "\nparam "@ + p.name@ + " = "@ + p.value@
}

/// All parameters as they appear in the request preview.
pub open spec fn params_text(ps: Seq<Param>) -> Seq<char>
    decreases ps.len(),
{
    if ps.len() == 0 {
        Seq::empty()
    } else {
        params_text(ps.drop_last()) + param_text(ps.last())
    }
}

/// The "what would be sent" representation of a descriptor: the
/// resource, the operation, and each parameter on its own line.
pub open spec fn describe_text(d: ActionDescriptor) -> Seq<char> {
    "resource: "@ + kind_noun(d.resource_kind) + "\noperation: "@ + op_text(d.operation)
        + params_text(d.parameters@)
}

/// Render the "what would be sent" representation of a descriptor.
pub fn describe(d: &ActionDescriptor) -> (r: String)
    ensures
        r@ == describe_text(*d),
{
    let mut out = String::from_str("resource: ");
    out.append(kind_noun_str(d.resource_kind));
    out.append("\noperation: ");
    let opn = op_name(&d.operation);
    out.append(opn.as_str());
    let ghost head = out@;
    let n = d.parameters.len();
    let mut i: usize = 0;
    while i < n
        invariant
            i <= n,
            n == d.parameters@.len(),
            out@ == head + params_text(d.parameters@.subrange(0, i as int)),
        decreases n - i,
    {
        out.append("\nparam ");
        out.append(d.parameters[i].name.as_str());
        out.append(" = ");
        out.append(d.parameters[i].value.as_str());
        proof {
            let pre = d.parameters@.subrange(0, i + 1);
            assert(pre.drop_last() =~= d.parameters@.subrange(0, i as int));
            assert(out@ =~= head + params_text(pre));
        }
        i = i + 1;
    }
    proof {
        assert(d.parameters@.subrange(0, n as int) =~= d.parameters@);
        assert(out@ =~= describe_text(*d));
    }
    out
}

/// A payload line: a leading tab, then the content with embedded
/// newlines re-indented.
pub open spec fn item_line_text(s: Seq<char>) -> Seq<char> {
    seq!['\t'] + indented(s)
}

/// Render one payload line.
fn item_line(s: &str) -> (r: String)
    ensures
        r@ == item_line_text(s@),
{
    let mut out = String::from_str("\t");
    let body = indent_embedded(s);
    out.append(body.as_str());
    proof {
        reveal_strlit("\t");
        assert(out@ =~= item_line_text(s@));
    }
    out
}

/// The two preview lines: an announcement, then the indented request.
pub open spec fn preview_lines_text(d: ActionDescriptor) -> Seq<Seq<char>> {
    seq![info_text("Displaying sent request..."@), item_line_text(describe_text(d))]
}

/// Render the preview of the outbound request.  The descriptor is only
/// read, never changed.
pub fn preview_lines(d: &ActionDescriptor) -> (r: Vec<String>)
    ensures
        r.deep_view() == preview_lines_text(*d),
{
    let mut out: Vec<String> = Vec::new();
    out.push(info_line("Displaying sent request..."));
    let body = describe(d);
    out.push(item_line(body.as_str()));
    proof {
        assert(out.deep_view() =~~= preview_lines_text(*d));
    }
    out
}

/// The two raw-response lines: an announcement, then the indented raw
/// text.
pub open spec fn raw_lines_text(raw: Seq<char>) -> Seq<Seq<char>> {
    seq![info_text("Displaying JSON response from DigitalOcean..."@), item_line_text(raw)]
}

/// Render the raw (pre-typed) response representation.
pub fn raw_response_lines(raw: &str) -> (r: Vec<String>)
    ensures
        r.deep_view() == raw_lines_text(raw@),
{
    let mut out: Vec<String> = Vec::new();
    out.push(info_line("Displaying JSON response from DigitalOcean..."));
    out.push(item_line(raw));
    proof {
        assert(out.deep_view() =~~= raw_lines_text(raw@));
    }
    out
}

/// The lines a payload renders to: one line per element with an explicit
/// message for an empty list, or one indented block.
pub open spec fn payload_lines_text(p: Payload) -> Seq<Seq<char>> {
    match p {
        Payload::Items(items) => if items@.len() == 0 {
            seq!["\tNo items to display"@]
        } else {
            items.deep_view().map_values(|s: Seq<char>| item_line_text(s))
        },
        Payload::Record(s) => seq![item_line_text(s@)],
    }
}

/// The lines of a success report: the header, the success banner, then
/// the payload.
pub open spec fn success_lines_text(header: Seq<char>, p: Payload) -> Seq<Seq<char>> {
    seq![header, green("Success"@)] + payload_lines_text(p)
}

/// The lines of a failure report: the header, the failure banner, then
/// the error detail passed through unmodified after a leading tab.
pub open spec fn failure_lines_text(header: Seq<char>, error: Seq<char>) -> Seq<Seq<char>> {
    seq![header, red("Failed"@), seq!['\t'] + error]
}

/// Render a success report.
pub fn report_success(header: String, payload: &Payload) -> (r: Vec<String>)
    ensures
        r.deep_view() == success_lines_text(header@, *payload),
{
    let ghost h = header@;
    let mut out: Vec<String> = Vec::new();
    out.push(header);
    out.push(paint_green("Success"));
    match payload {
        Payload::Items(items) => {
            if items.len() == 0 {
                out.push(String::from_str("\tNo items to display"));
            } else {
                let n = items.len();
                let mut i: usize = 0;
                while i < n
                    invariant
                        i <= n,
                        n == items@.len(),
                        n > 0,
                        out.deep_view() =~= seq![h, green("Success"@)] + items.deep_view().subrange(
                            0,
                            i as int,
                        ).map_values(|s: Seq<char>| item_line_text(s)),
                    decreases n - i,
                {
                    let ghost dv0 = out.deep_view();
                    out.push(item_line(items[i].as_str()));
                    proof {
                        let f = |s: Seq<char>| item_line_text(s);
                        let dv = items.deep_view();
                        assert(dv[i as int] == items@[i as int]@);
                        assert(out.deep_view() =~= dv0.push(item_line_text(dv[i as int])));
                        assert(dv.subrange(0, i + 1).map_values(f) =~= dv.subrange(
                            0,
                            i as int,
                        ).map_values(f).push(f(dv[i as int])));
                        assert(out.deep_view() =~= seq![h, green("Success"@)] + dv.subrange(
                            0,
                            i + 1,
                        ).map_values(f));
                    }
                    i = i + 1;
                }
                proof {
                    assert(items.deep_view().subrange(0, n as int) =~= items.deep_view());
                }
            }
        },
        Payload::Record(s) => {
            out.push(item_line(s.as_str()));
        },
    }
    proof {
        assert(out.deep_view() =~~= success_lines_text(h, *payload));
    }
    out
}

/// Render a failure report.
pub fn report_failure(header: String, error: &str) -> (r: Vec<String>)
    ensures
        r.deep_view() == failure_lines_text(header@, error@),
{
    let ghost h = header@;
    let mut out: Vec<String> = Vec::new();
    out.push(header);
    out.push(paint_red("Failed"));
    let mut detail = String::from_str("\t");
    detail.append(error);
    proof {
        reveal_strlit("\t");
        assert(detail@ =~= seq!['\t'] + error@);
    }
    out.push(detail);
    proof {
        assert(out.deep_view() =~~= failure_lines_text(h, error@));
    }
    out
}

/// The lines an outcome reports to, whichever action produced it.
pub open spec fn report_lines_text(d: ActionDescriptor, o: Outcome) -> Seq<Seq<char>> {
    match o {
        Outcome::Success { payload } => success_lines_text(header_text(d), payload),
        Outcome::Failure { error } => failure_lines_text(header_text(d), error@),
    }
}

/// Render the report for an outcome: exactly one of the success and
/// failure paths runs.
pub fn report_outcome(d: &ActionDescriptor, o: &Outcome) -> (r: Vec<String>)
    ensures
        r.deep_view() == report_lines_text(*d, *o),
{
    let header = header_line(d);
    match o {
        Outcome::Success { payload } => report_success(header, payload),
        Outcome::Failure { error } => report_failure(header, error.as_str()),
    }
}

/// Reporting is pure with respect to the outcome: a report is a
/// function of the descriptor and the outcome alone, so two pipeline
/// runs over identical inputs render byte-identical report output.
pub proof fn lemma_reporting_pure(
    d1: ActionDescriptor,
    o1: Outcome,
    d2: ActionDescriptor,
    o2: Outcome,
)
    requires
        d1 == d2,
        o1 == o2,
    ensures
        report_lines_text(d1, o1) == report_lines_text(d2, o2),
{
}

/// The fixed warning line shown before the confirmation question.
pub open spec fn confirm_warning_text() -> Seq<char> {
    blue_bold("::"@) + " "@ + red_bold("Warning"@) + " "@ + white_bold(
        "The action you are about to perform modifies existing data..."@,
    )
}

/// The fixed question shown at the confirmation prompt, ending in the
/// `[Y/n]` convention marker.
pub open spec fn confirm_question_text() -> Seq<char> {
    seq!['\t'] + white_bold("Are you sure you want to continue?"@) + "[Y/n]: "@
}

/// Render the confirmation warning line.
pub fn confirm_warning() -> (r: String)
    ensures
        r@ == confirm_warning_text(),
{
    let mut out = paint_blue_bold("::");
    out.append(" ");
    let warn = paint_red_bold("Warning");
    out.append(warn.as_str());
    out.append(" ");
    let body = paint_white_bold("The action you are about to perform modifies existing data...");
    out.append(body.as_str());
    proof {
        assert(out@ =~= confirm_warning_text());
    }
    out
}

/// Render the confirmation question.
pub fn confirm_question() -> (r: String)
    ensures
        r@ == confirm_question_text(),
{
    let mut out = String::from_str("\t");
    let body = paint_white_bold("Are you sure you want to continue?");
    out.append(body.as_str());
    out.append("[Y/n]: ");
    proof {
        reveal_strlit("\t");
        assert(out@ =~= confirm_question_text());
    }
    out
}

} // verus!
