//! Static descriptions of the hardware: processor, memory, drives, board.
//!
//! The caller reads what the operating system knows and runs the Windows
//! management tool `wmic`; this module picks the values out of the tool's
//! `Key=Value` output and fills in a description where nothing was found.

use crate::text::{
    chars_of, decimal_digits, first_index_of, has_prefix, lines_of, render_u64, rows, split_lines,
    split_once, string_of, strip_prefix, trim, trimmed,
};
use vstd::prelude::*;

verus! {

/// Bytes in one gibibyte.
pub const GIGABYTE: u64 = 1_073_741_824;

/// The descriptions that are shown for this machine.
#[derive(Clone, Debug, PartialEq, Eq)]
pub struct HardwareInfo {
    pub cpu_model: String,
    pub gpu_model: String,
    pub ram_spec: String,
    pub disk_models: Vec<String>,
    pub motherboard: String,
    pub device_brand: String,
}

/// What was read from the machine. An output is `None` where `wmic` could not
/// be run or reported a failure.
#[derive(Clone, Debug, PartialEq, Eq)]
pub struct HardwareReadings {
    /// The brand of the first processor, if any processor is reported.
    pub cpu_brand: Option<String>,
    /// Installed memory, in bytes.
    pub total_memory: u64,
    /// The names of the mounted volumes.
    pub disk_names: Vec<String>,
    /// The output of the query `WmicQuery::DiskDrive`.
    pub disk_drive_output: Option<String>,
    /// The output of the query `WmicQuery::VideoController`.
    pub video_controller_output: Option<String>,
    /// The output of the query `WmicQuery::Baseboard`.
    pub baseboard_output: Option<String>,
    /// The output of the query `WmicQuery::ComputerSystem`.
    pub computer_system_output: Option<String>,
}

/// The questions that are put to `wmic`.
#[derive(Clone, Copy, Debug, PartialEq, Eq, Structural)]
pub enum WmicQuery {
    /// The model of each disk drive.
    DiskDrive,
    /// The name of the video controller.
    VideoController,
    /// The product name of the main board.
    Baseboard,
    /// The manufacturer of the machine.
    ComputerSystem,
}

/// The key that starts a line with a drive's model.
pub open spec fn model_key() -> Seq<char> {
    seq!['M', 'o', 'd', 'e', 'l', '=']
}

/// The drive model that a line of output names: what follows `Model=`,
/// trimmed, unless that is empty.
pub open spec fn model_of_line(line: Seq<char>) -> Option<Seq<char>> {
    if has_prefix(line, model_key()) && trimmed(line.skip(6)).len() > 0 {
        Some(trimmed(line.skip(6)))
    } else {
        None
    }
}

/// The drive models that the lines name, in order.
pub open spec fn models_of(lines: Seq<Seq<char>>) -> Seq<Seq<char>>
    decreases lines.len(),
{
    if lines.len() == 0 {
        Seq::empty()
    } else {
        match model_of_line(lines.last()) {
            Some(m) => models_of(lines.drop_last()).push(m),
            None => models_of(lines.drop_last()),
        }
    }
}

/// The value that a line of output gives: what follows its first `=`, trimmed,
/// unless the line has no `=` or that is empty.
pub open spec fn value_of_line(line: Seq<char>) -> Option<Seq<char>> {
    if line.contains('=') && trimmed(line.skip(first_index_of(line, '=') + 1)).len() > 0 {
        Some(trimmed(line.skip(first_index_of(line, '=') + 1)))
    } else {
        None
    }
}

/// The value of the first line that gives one.
pub open spec fn first_value(lines: Seq<Seq<char>>) -> Option<Seq<char>>
    decreases lines.len(),
{
    if lines.len() == 0 {
        None
    } else {
        match value_of_line(lines[0]) {
            Some(v) => Some(v),
            None => first_value(lines.drop_first()),
        }
    }
}

/// The installed memory in whole gibibytes: rounded to the nearest, a half to
/// the even neighbour, and never less than one.
pub open spec fn ram_gigabytes(total_memory: u64) -> nat {
    let whole = (total_memory / GIGABYTE) as nat;
    let rest = total_memory % GIGABYTE;
    if total_memory < GIGABYTE {
        1
    } else if rest > GIGABYTE / 2 || (rest == GIGABYTE / 2 && whole % 2 == 1) {
        whole + 1
    } else {
        whole
    }
}

/// The text that describes the installed memory.
pub open spec fn ram_text(total_memory: u64) -> Seq<char> {
    decimal_digits(ram_gigabytes(total_memory)) + seq![' ', 'G', 'B']
}

/// The arguments that put `query` to `wmic`.
pub fn wmic_arguments(query: WmicQuery) -> (args: Vec<String>)
    ensures
        args.deep_view() == (match query {
            WmicQuery::DiskDrive => seq!["diskdrive"@, "get"@, "model"@, "/value"@],
            WmicQuery::VideoController => seq![
                "path"@,
                "win32_VideoController"@,
                "get"@,
                "Name"@,
                "/value"@,
            ],
            WmicQuery::Baseboard => seq!["baseboard"@, "get"@, "product"@, "/value"@],
            WmicQuery::ComputerSystem => seq!["computersystem"@, "get"@, "manufacturer"@, "/value"@],
        }),
{
    let mut args: Vec<String> = Vec::new();
    match query {
        WmicQuery::DiskDrive => {
            args.push("diskdrive".to_owned());
            args.push("get".to_owned());
            args.push("model".to_owned());
        },
        WmicQuery::VideoController => {
            args.push("path".to_owned());
            args.push("win32_VideoController".to_owned());
            args.push("get".to_owned());
            args.push("Name".to_owned());
        },
        WmicQuery::Baseboard => {
            args.push("baseboard".to_owned());
            args.push("get".to_owned());
            args.push("product".to_owned());
        },
        WmicQuery::ComputerSystem => {
            args.push("computersystem".to_owned());
            args.push("get".to_owned());
            args.push("manufacturer".to_owned());
        },
    }
    args.push("/value".to_owned());
    assert(args.deep_view() =~= (match query {
        WmicQuery::DiskDrive => seq!["diskdrive"@, "get"@, "model"@, "/value"@],
        WmicQuery::VideoController => seq![
            "path"@,
            "win32_VideoController"@,
            "get"@,
            "Name"@,
            "/value"@,
        ],
        WmicQuery::Baseboard => seq!["baseboard"@, "get"@, "product"@, "/value"@],
        WmicQuery::ComputerSystem => seq!["computersystem"@, "get"@, "manufacturer"@, "/value"@],
    }));
    args
}

/// The drive model that one line names.
fn model_from_line(line: &Vec<char>) -> (r: Option<Vec<char>>)
    ensures
        r is Some <==> model_of_line(line@) is Some,
        r matches Some(m) ==> m@ == model_of_line(line@)->0,
{
    let key = chars_of("Model=");
    proof {
        reveal_strlit("Model=");
        assert(key@ =~= model_key());
    }
    match strip_prefix(line, &key) {
        Some(rest) => {
            let item = trim(&rest);
            if item.len() > 0 {
                Some(item)
            } else {
                None
            }
        },
        None => None,
    }
}

/// The value that one line gives.
fn value_from_line(line: &Vec<char>) -> (r: Option<Vec<char>>)
    ensures
        r is Some <==> value_of_line(line@) is Some,
        r matches Some(v) ==> v@ == value_of_line(line@)->0,
{
    match split_once(line, '=') {
        Some(parts) => {
            let text = trim(&parts.1);
            if text.len() > 0 {
                Some(text)
            } else {
                None
            }
        },
        None => None,
    }
}

/// The models of the disk drives that the output of `WmicQuery::DiskDrive`
/// names, in order; `None` where there is no output or it names none.
pub fn disk_models(output: Option<&str>) -> (r: Option<Vec<String>>)
    ensures
        r is Some <==> output is Some && models_of(lines_of(output->0@)).len() > 0,
        r matches Some(models) ==> models.deep_view() == models_of(lines_of(output->0@)),
{
    let raw = match output {
        Some(raw) => raw,
        None => {
            return None;
        },
    };
    let chars = chars_of(raw);
    let lines = split_lines(&chars);
    let ghost all = rows(lines@);
    let mut out: Vec<String> = Vec::new();
    let mut i: usize = 0;
    while i < lines.len()
        invariant
            i <= lines.len(),
            all == rows(lines@),
            out.deep_view() == models_of(all.take(i as int)),
        decreases lines.len() - i,
    {
        assert(all.take(i + 1).drop_last() =~= all.take(i as int));
        match model_from_line(&lines[i]) {
            Some(item) => {
                out.push(string_of(item));
            },
            None => {},
        }
        i += 1;
    }
    assert(all.take(i as int) =~= all);
    if out.len() == 0 {
        None
    } else {
        Some(out)
    }
}

/// The first value that the output of a query gives; `None` where there is
/// no output or no line of it gives a value.
pub fn first_wmic_value(output: Option<&str>) -> (r: Option<String>)
    ensures
        r is Some <==> output is Some && first_value(lines_of(output->0@)) is Some,
        r matches Some(v) ==> v@ == first_value(lines_of(output->0@))->0,
{
    let raw = match output {
        Some(raw) => raw,
        None => {
            return None;
        },
    };
    let chars = chars_of(raw);
    let lines = split_lines(&chars);
    let ghost all = rows(lines@);
    let mut i: usize = 0;
    assert(all.skip(0) =~= all);
    while i < lines.len()
        invariant
            i <= lines.len(),
            all == rows(lines@),
            all == lines_of(raw@),
            output == Some(raw),
            first_value(all) == first_value(all.skip(i as int)),
        decreases lines.len() - i,
    {
        assert(all.skip(i as int).drop_first() =~= all.skip(i + 1));
        match value_from_line(&lines[i]) {
            Some(text) => {
                return Some(string_of(text));
            },
            None => {},
        }
        i += 1;
    }
    None
}

/// Describes the installed memory, as in `16 GB`.
pub fn ram_spec(total_memory: u64) -> (r: String)
    ensures
        r@ == ram_text(total_memory),
{
    let whole: u64 = total_memory / GIGABYTE;
    let rest: u64 = total_memory % GIGABYTE;
    let gigabytes: u64 = if total_memory < GIGABYTE {
        1
    } else if rest > GIGABYTE / 2 || (rest == GIGABYTE / 2 && whole % 2 == 1) {
        whole + 1
    } else {
        whole
    };
    let mut chars = render_u64(gigabytes);
    chars.push(' ');
    chars.push('G');
    chars.push('B');
    string_of(chars)
}

/// The value that the output of a query gives, or `fallback` where there is
/// no output or it gives none.
pub open spec fn value_or(output: Option<Seq<char>>, fallback: Seq<char>) -> Seq<char> {
    match output {
        Some(text) => match first_value(lines_of(text)) {
            Some(v) => v,
            None => fallback,
        },
        None => fallback,
    }
}

/// The description of the processor: its brand as reported, unless that is
/// missing or blank.
pub open spec fn cpu_model_of(brand: Option<Seq<char>>) -> Seq<char> {
    match brand {
        Some(b) => if trimmed(b).len() > 0 {
            b
        } else {
            "Unknown CPU"@
        },
        None => "Unknown CPU"@,
    }
}

/// The descriptions of the drives: the models that `wmic` names; where it
/// names none, the names of the mounted volumes; where there is none of these
/// either, a single `Unknown disk`.
pub open spec fn drives_of(output: Option<Seq<char>>, names: Seq<Seq<char>>) -> Seq<Seq<char>> {
    let models = match output {
        Some(text) => models_of(lines_of(text)),
        None => Seq::empty(),
    };
    if models.len() > 0 {
        models
    } else if names.len() > 0 {
        names
    } else {
        seq!["Unknown disk"@]
    }
}

/// The value that `output` gives, or `fallback` where it gives none.
fn value_or_fallback(output: &Option<String>, fallback: &str) -> (r: String)
    ensures
        r@ == value_or(output.deep_view(), fallback@),
{
    let found = match output {
        Some(text) => first_wmic_value(Some(text.as_str())),
        None => None,
    };
    match found {
        Some(v) => v,
        None => fallback.to_owned(),
    }
}

/// Puts the descriptions together. Where a value is missing it says so:
/// `Unknown CPU`, `N/A` for the graphics processor, `Unknown disk`,
/// `Unknown motherboard`, `Unknown vendor`. The drive models come from `wmic`
/// or, where it names none, from the names of the mounted volumes.
pub fn collect_hardware_info(readings: &HardwareReadings) -> (info: HardwareInfo)
    ensures
        info.cpu_model@ == cpu_model_of(readings.cpu_brand.deep_view()),
        info.gpu_model@ == value_or(readings.video_controller_output.deep_view(), "N/A"@),
        info.ram_spec@ == ram_text(readings.total_memory),
        info.disk_models.deep_view() == drives_of(
            readings.disk_drive_output.deep_view(),
            readings.disk_names.deep_view(),
        ),
        info.motherboard@ == value_or(
            readings.baseboard_output.deep_view(),
            "Unknown motherboard"@,
        ),
        info.device_brand@ == value_or(
            readings.computer_system_output.deep_view(),
            "Unknown vendor"@,
        ),
{
    let cpu_model = match &readings.cpu_brand {
        Some(brand) => {
            let chars = chars_of(brand.as_str());
            if trim(&chars).len() > 0 {
                brand.clone()
            } else {
                "Unknown CPU".to_owned()
            }
        },
        None => "Unknown CPU".to_owned(),
    };
    let found = match &readings.disk_drive_output {
        Some(text) => disk_models(Some(text.as_str())),
        None => None,
    };
    let disk_models = match found {
        Some(models) => models,
        None => {
            if readings.disk_names.len() > 0 {
                readings.disk_names.clone()
            } else {
                let mut unknown: Vec<String> = Vec::new();
                unknown.push("Unknown disk".to_owned());
                unknown
            }
        },
    };
    HardwareInfo {
        cpu_model,
        gpu_model: value_or_fallback(&readings.video_controller_output, "N/A"),
        ram_spec: ram_spec(readings.total_memory),
        disk_models,
        motherboard: value_or_fallback(&readings.baseboard_output, "Unknown motherboard"),
        device_brand: value_or_fallback(&readings.computer_system_output, "Unknown vendor"),
    }
}

} // verus!
