//! Where results are exported to and the layout of the CSV export.
use vstd::prelude::*;
use crate::state::ExportFormat;

verus! {

/// The file a JSON export goes to unless another is given.
pub const DEFAULT_JSON_FILE: &'static str = "speedtest-result.json";

/// The file a CSV export is appended to unless another is given.
pub const DEFAULT_CSV_FILE: &'static str = "speedtest-results.csv";

/// The file an export in `format` is written to: the given path, else the
/// format's default file. PNG export writes no file.
pub fn export_file(format: ExportFormat, path: Option<&str>) -> (r: Option<String>)
    ensures
        match format {
            ExportFormat::Json => r matches Some(f) && f@ == (match path {
                Some(p) => p@,
                None => DEFAULT_JSON_FILE@,
            }),
            ExportFormat::Csv => r matches Some(f) && f@ == (match path {
                Some(p) => p@,
                None => DEFAULT_CSV_FILE@,
            }),
            ExportFormat::Png => r is None,
        },
{
    match format {
        ExportFormat::Json => Some(
            String::from_str(
                match path {
                    Some(p) => p,
                    None => DEFAULT_JSON_FILE,
                },
            ),
        ),
        ExportFormat::Csv => Some(
            String::from_str(
                match path {
                    Some(p) => p,
                    None => DEFAULT_CSV_FILE,
                },
            ),
        ),
        ExportFormat::Png => None,
    }
}

/// The columns of the CSV export, in order.
pub fn csv_header() -> (r: Vec<&'static str>)
    ensures
        r@.len() == 11,
        r@[0]@ == "timestamp"@,
        r@[1]@ == "isp"@,
        r@[2]@ == "ip"@,
        r@[3]@ == "location"@,
        r@[4]@ == "server"@,
        r@[5]@ == "ping_ms"@,
        r@[6]@ == "jitter_ms"@,
        r@[7]@ == "packet_loss_pct"@,
        r@[8]@ == "download_mbps"@,
        r@[9]@ == "upload_mbps"@,
        r@[10]@ == "grade"@,
{
    let mut v: Vec<&'static str> = Vec::new();
    v.push("timestamp");
    v.push("isp");
    v.push("ip");
    v.push("location");
    v.push("server");
    v.push("ping_ms");
    v.push("jitter_ms");
    v.push("packet_loss_pct");
    v.push("download_mbps");
    v.push("upload_mbps");
    v.push("grade");
    v
}

/// The line reported after an export in `format` to `file`.
pub fn export_notice(format: ExportFormat, file: &str) -> (r: String)
    ensures
        r@ == (match format {
            ExportFormat::Json => "Exported JSON to "@ + file@,
            ExportFormat::Csv => "Exported CSV to "@ + file@,
            ExportFormat::Png => "PNG export: not yet implemented."@,
        }),
{
    match format {
        ExportFormat::Json => {
            let mut s = String::from_str("Exported JSON to ");
            s.append(file);
            s
        },
        ExportFormat::Csv => {
            let mut s = String::from_str("Exported CSV to ");
            s.append(file);
            s
        },
        ExportFormat::Png => String::from_str("PNG export: not yet implemented."),
    }
}

} // verus!
