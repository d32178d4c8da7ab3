//! The report assembler: the ordered, labeled report built from one
//! host-facts snapshot.

use vstd::prelude::*;
use vstd::string::StringExecFns;
use crate::clock::{format_timestamp, utc_timestamp_of, MAX_BOOT_TIME_SECS};
use crate::facts::{DiskFactView, FactsView, HostFacts};
use crate::numerals::{decimal_of, format_count};
use crate::sizes::{format_size_pair, si_size_of};

verus! {

/// One labeled report entry.
#[derive(Debug, PartialEq, Eq)]
pub struct Field {
    pub label: String,
    pub value: String,
}

impl View for Field {
    type V = (Seq<char>, Seq<char>);

    open spec fn view(&self) -> (Seq<char>, Seq<char>) {
        (self.label@, self.value@)
    }
}

/// The ordered report: insertion order is display order.
#[derive(Debug, PartialEq, Eq)]
pub struct Report {
    pub fields: Vec<Field>,
}

impl View for Report {
    type V = Seq<(Seq<char>, Seq<char>)>;

    open spec fn view(&self) -> Seq<(Seq<char>, Seq<char>)> {
        self.fields@.map_values(|f: Field| f@)
    }
}

/// Why a report could not be assembled, or a banner not produced.
#[derive(Clone, Copy, Debug, PartialEq, Eq)]
pub enum ReportError {
    /// The terminal dimensions could not be read.
    NoTerminal,
    /// No local network address could be determined.
    NoLocalIp,
    /// The glyph font for the banner could not be loaded.
    FontUnavailable,
}

impl ReportError {
    /// A diagnostic line for the failure.
    pub fn message(&self) -> (r: &'static str)
        ensures
            r@ == (match *self {
                ReportError::NoTerminal => "failed to get terminal dimensions"@,
                ReportError::NoLocalIp => "failed to get a local network address"@,
                ReportError::FontUnavailable => "failed to load the banner font"@,
            }),
    {
        match self {
            ReportError::NoTerminal => "failed to get terminal dimensions",
            ReportError::NoLocalIp => "failed to get a local network address",
            ReportError::FontUnavailable => "failed to load the banner font",
        }
    }
}

/// The placeholder shown for a textual fact the provider cannot answer.
pub open spec fn unknown_text() -> Seq<char> {
    "<unknown>"@
}

/// A textual fact, or the placeholder when the provider has none.
pub open spec fn text_or_unknown(o: Option<Seq<char>>) -> Seq<char> {
    match o {
        Some(s) => s,
        None => unknown_text(),
    }
}

/// The twelve fixed fields of the report, in display order.
pub open spec fn fixed_fields_of(f: FactsView) -> Seq<(Seq<char>, Seq<char>)> {
    seq![
        ("Hostname"@, text_or_unknown(f.hostname)),
        ("System Name"@, text_or_unknown(f.system_name)),
        ("Distribution"@, f.distribution_id),
        ("Kernel version"@, text_or_unknown(f.kernel_version)),
        ("OS version"@, text_or_unknown(f.os_version)),
        ("RAM"@, si_size_of(f.used_memory) + "/"@ + si_size_of(f.total_memory)),
        ("Swap"@, si_size_of(f.used_swap) + "/"@ + si_size_of(f.total_swap)),
        ("UpTime"@, utc_timestamp_of(f.boot_time)),
        (
            "Resolution"@,
            decimal_of(f.terminal.unwrap().0 as nat) + "x"@ + decimal_of(
                f.terminal.unwrap().1 as nat,
            ),
        ),
        ("IP"@, f.local_ip.unwrap()),
        ("CPUs"@, decimal_of(f.cpu_count as nat)),
        ("Processes"@, decimal_of(f.process_count as nat)),
    ]
}

/// The report entry for one disk: the name labels the entry and the value
/// is the available/total pair.
pub open spec fn disk_field_of(d: DiskFactView) -> (Seq<char>, Seq<char>) {
    (d.name, si_size_of(d.available) + "/"@ + si_size_of(d.total))
}

/// The full report for a snapshot whose local address and terminal size
/// are present: the twelve fixed fields followed by one entry per disk.
pub open spec fn report_spec(f: FactsView) -> Seq<(Seq<char>, Seq<char>)> {
    fixed_fields_of(f) + f.disks.map_values(|d: DiskFactView| disk_field_of(d))
}

fn text_field(o: &Option<String>) -> (r: String)
    ensures
        r@ == text_or_unknown(o.deep_view()),
{
    match o {
        Some(s) => s.clone(),
        None => String::from_str("<unknown>"),
    }
}

fn push_field(fields: &mut Vec<Field>, label: &'static str, value: String)
    ensures
        final(fields)@.map_values(|fld: Field| fld@) == old(fields)@.map_values(
            |fld: Field| fld@,
        ).push((label@, value@)),
{
    let ghost prior = fields@;
    fields.push(Field { label: String::from_str(label), value });
    proof {
        assert(fields@.map_values(|fld: Field| fld@) =~= prior.map_values(|fld: Field| fld@).push(
            (label@, value@),
        ));
    }
}

/// Assembles the ordered report from one snapshot.
///
/// Textual facts the provider could not answer degrade to the placeholder;
/// a missing terminal size or local address is fatal and yields an error
/// instead of a partial report (the terminal is checked first).
pub fn assemble_report(facts: &HostFacts) -> (r: Result<Report, ReportError>)
    requires
        facts.boot_time <= MAX_BOOT_TIME_SECS,
    ensures
        facts@.terminal is None ==> r == Err::<Report, ReportError>(ReportError::NoTerminal),
        facts@.terminal is Some && facts@.local_ip is None ==> r == Err::<Report, ReportError>(
            ReportError::NoLocalIp,
        ),
        r matches Ok(rep) ==> rep@ == report_spec(facts@),
        r is Ok <==> (facts@.terminal is Some && facts@.local_ip is Some),
{
    let (w, h) = match &facts.terminal {
        Some(t) => (t.0, t.1),
        None => {
            return Err(ReportError::NoTerminal);
        },
    };
    let ip = match &facts.local_ip {
        Some(s) => s.clone(),
        None => {
            return Err(ReportError::NoLocalIp);
        },
    };
    let mut fields: Vec<Field> = Vec::new();
    push_field(&mut fields, "Hostname", text_field(&facts.hostname));
    push_field(&mut fields, "System Name", text_field(&facts.system_name));
    push_field(&mut fields, "Distribution", facts.distribution_id.clone());
    push_field(&mut fields, "Kernel version", text_field(&facts.kernel_version));
    push_field(&mut fields, "OS version", text_field(&facts.os_version));
    push_field(&mut fields, "RAM", format_size_pair(facts.used_memory, facts.total_memory));
    push_field(&mut fields, "Swap", format_size_pair(facts.used_swap, facts.total_swap));
    push_field(&mut fields, "UpTime", format_timestamp(facts.boot_time));
    let mut resolution = format_count(w);
    resolution.append("x");
    let height = format_count(h);
    resolution.append(height.as_str());
    push_field(&mut fields, "Resolution", resolution);
    push_field(&mut fields, "IP", ip);
    push_field(&mut fields, "CPUs", format_count(facts.cpu_count));
    push_field(&mut fields, "Processes", format_count(facts.process_count));
    proof {
        assert(fields@.map_values(|fld: Field| fld@) =~~= fixed_fields_of(facts@));
    }
    let ghost fixed = fixed_fields_of(facts@);
    let mut i: usize = 0;
    while i < facts.disks.len()
        invariant
            i <= facts.disks.len(),
            facts@.disks.len() == facts.disks.len(),
            fields@.map_values(|fld: Field| fld@) == fixed + facts@.disks.take(i as int).map_values(
                |d: DiskFactView| disk_field_of(d),
            ),
        decreases facts.disks.len() - i,
    {
        let ghost prior = fields@;
        let disk = &facts.disks[i];
        let value = format_size_pair(disk.available, disk.total);
        fields.push(Field { label: disk.name.clone(), value });
        proof {
            let g = |fld: Field| fld@;
            let gd = |d: DiskFactView| disk_field_of(d);
            assert(fields@ == prior.push(fields@.last()));
            assert(g(fields@.last()) == disk_field_of(facts@.disks[i as int]));
            prior.lemma_push_map_commute(g, fields@.last());
            facts@.disks.lemma_map_take_succ(gd, i as int);
            Seq::push_distributes_over_add(
                fixed,
                facts@.disks.take(i as int).map_values(gd),
                gd(facts@.disks[i as int]),
            );
            assert(fields@.map_values(g) == fixed + facts@.disks.take(i + 1).map_values(gd));
        }
        i += 1;
    }
    proof {
        assert(facts@.disks.take(facts.disks.len() as int) =~= facts@.disks);
        assert(fields@.map_values(|fld: Field| fld@) =~~= report_spec(facts@));
    }
    Ok(Report { fields })
}

/// Law: the assembled report has exactly the twelve fixed fields, under
/// their fixed labels and in their fixed order, followed by one entry per
/// reported disk.
pub proof fn lemma_report_field_count(f: FactsView)
    ensures
        report_spec(f).len() == 12 + f.disks.len(),
        report_spec(f)[0].0 == "Hostname"@,
        report_spec(f)[1].0 == "System Name"@,
        report_spec(f)[2].0 == "Distribution"@,
        report_spec(f)[3].0 == "Kernel version"@,
        report_spec(f)[4].0 == "OS version"@,
        report_spec(f)[5].0 == "RAM"@,
        report_spec(f)[6].0 == "Swap"@,
        report_spec(f)[7].0 == "UpTime"@,
        report_spec(f)[8].0 == "Resolution"@,
        report_spec(f)[9].0 == "IP"@,
        report_spec(f)[10].0 == "CPUs"@,
        report_spec(f)[11].0 == "Processes"@,
        forall|j: int|
            0 <= j < f.disks.len() ==> report_spec(f)[12 + j] == disk_field_of(#[trigger] f.disks[j]),
{
}

/// Law: a textual fact the provider cannot answer falls back to the
/// literal placeholder, field for field; whether assembly succeeds does
/// not depend on these facts (it depends only on the local address and the
/// terminal size).
pub proof fn lemma_placeholder_fallback(f: FactsView)
    ensures
        f.hostname is None ==> report_spec(f)[0] == ("Hostname"@, unknown_text()),
        f.system_name is None ==> report_spec(f)[1] == ("System Name"@, unknown_text()),
        f.kernel_version is None ==> report_spec(f)[3] == ("Kernel version"@, unknown_text()),
        f.os_version is None ==> report_spec(f)[4] == ("OS version"@, unknown_text()),
{
}

/// Law: assembling twice from one unchanged snapshot yields structurally
/// identical field lists: the report is a function of the snapshot alone.
pub proof fn lemma_assembly_deterministic(
    f: FactsView,
    r1: Seq<(Seq<char>, Seq<char>)>,
    r2: Seq<(Seq<char>, Seq<char>)>,
)
    requires
        r1 == report_spec(f),
        r2 == report_spec(f),
    ensures
        r1 == r2,
{
}

} // verus!
