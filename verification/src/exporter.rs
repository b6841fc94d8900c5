//! Rendering of a session's recorded actions for export: an HTML
//! report built here in full, and CSV rows encoded through the `csv`
//! crate.  Writing the rendered text to disk, and the JSON export done
//! by a serializer, are left to the surroundings.

use vstd::prelude::*;
use vstd::string::*;

verus! {

/// Errors of exporting.
#[derive(Debug)]
pub enum ExportError {
    /// The data could not be rendered.
    ExportFailed(String),
    /// The requested format is not one this exporter renders.
    InvalidFormat(String),
    /// The rendered text could not be written.
    IoError(String),
}

/// One recorded action of a session, held as plain text fields: the
/// timestamp already rendered (RFC 3339) and the metadata already
/// rendered as JSON text.
#[derive(Debug)]
pub struct RecordingData {
    pub session_id: String,
    pub timestamp: String,
    pub url: String,
    pub action: String,
    pub metadata: String,
}

/// Mathematical view of one recorded action.
pub ghost struct RecordingDataModel {
    pub session_id: Seq<char>,
    pub timestamp: Seq<char>,
    pub url: Seq<char>,
    pub action: Seq<char>,
    pub metadata: Seq<char>,
}

impl DeepView for RecordingData {
    type V = RecordingDataModel;

    open spec fn deep_view(&self) -> RecordingDataModel {
        RecordingDataModel {
            session_id: self.session_id@,
            timestamp: self.timestamp@,
            url: self.url@,
            action: self.action@,
            metadata: self.metadata@,
        }
    }
}

/// The formats an export can take.
#[derive(Clone, Copy, Debug, PartialEq, Eq, Structural)]
pub enum ExportFormat {
    Json,
    Csv,
    Html,
}

/// Renders recorded data for export.
pub struct Exporter;

/// One record's fields in export order.
pub open spec fn row_fields_of(r: RecordingDataModel) -> Seq<Seq<char>> {
    seq![r.session_id, r.timestamp, r.url, r.action, r.metadata]
}

/// The CSV header fields.
pub open spec fn csv_header_fields() -> Seq<Seq<char>> {
    seq!["session_id"@, "timestamp"@, "url"@, "action"@, "metadata"@]
}

/// One record list of fields, encoded as one CSV line (quoting rules
/// of the `csv` crate, terminated by a newline); a function of the
/// fields alone.
pub uninterp spec fn csv_line_of(fields: Seq<Seq<char>>) -> Seq<char>;

/// Relies on `csv::Writer` (`from_writer` on a byte buffer, one
/// `write_record`, `into_inner`): the encoding of one record is a pure
/// function of its fields — each field quoted by the crate's rules and
/// the line terminated.  `None` when the writer or the UTF-8 read-back
/// reports a failure.
#[verifier::external_body]
fn csv_record_line(fields: &Vec<String>) -> (r: Option<String>)
    ensures
        r matches Some(s) ==> s@ == csv_line_of(fields.deep_view()),
{
    let mut w = csv::Writer::from_writer(Vec::new());
    if w.write_record(fields.iter()).is_err() {
        return None;
    }
    match w.into_inner() {
        Ok(bytes) => String::from_utf8(bytes).ok(),
        Err(_) => None,
    }
}

/// The CSV lines of `rows`, in order.
pub open spec fn csv_body_of(rows: Seq<RecordingDataModel>) -> Seq<char>
    decreases rows.len(),
{
    if rows.len() == 0 {
        Seq::empty()
    } else {
        csv_body_of(rows.drop_last()) + csv_line_of(row_fields_of(rows.last()))
    }
}

/// A complete CSV export: the header line, then one line per record.
pub open spec fn csv_text_of(rows: Seq<RecordingDataModel>) -> Seq<char> {
    csv_line_of(csv_header_fields()) + csv_body_of(rows)
}

/// The fixed lead-in of the HTML report.
pub open spec fn html_head() -> Seq<char> {
    "<!DOCTYPE html>\n<html>\n<head>\n    <title>Recording Export</title>\n    <style>\n        body { font-family: Arial, sans-serif; margin: 20px; }\n        table { border-collapse: collapse; width: 100%; }\n        th, td { border: 1px solid #ddd; padding: 8px; text-align: left; }\n        th { background-color: #4CAF50; color: white; }\n        tr:nth-child(even) { background-color: #f2f2f2; }\n    </style>\n</head>\n<body>\n    <h1>Recording Export</h1>\n    <table>\n        <tr>\n            <th>Session ID</th>\n            <th>Timestamp</th>\n            <th>URL</th>\n            <th>Action</th>\n            <th>Metadata</th>\n        </tr>\n"@
}

/// The fixed tail of the HTML report.
pub open spec fn html_tail() -> Seq<char> {
    "    </table>\n</body>\n</html>\n"@
}

/// One record's table row.
pub open spec fn html_row_of(r: RecordingDataModel) -> Seq<char> {
    "        <tr>\n            <td>"@ + r.session_id + "</td>\n            <td>"@ + r.timestamp
        + "</td>\n            <td>"@ + r.url + "</td>\n            <td>"@ + r.action
        + "</td>\n            <td>"@ + r.metadata + "</td>\n        </tr>\n"@
}

/// The table rows of `rows`, in order.
pub open spec fn html_body_of(rows: Seq<RecordingDataModel>) -> Seq<char>
    decreases rows.len(),
{
    if rows.len() == 0 {
        Seq::empty()
    } else {
        html_body_of(rows.drop_last()) + html_row_of(rows.last())
    }
}

/// A complete HTML report of `rows`.
pub open spec fn html_text_of(rows: Seq<RecordingDataModel>) -> Seq<char> {
    html_head() + html_body_of(rows) + html_tail()
}

impl Exporter {
    pub fn new() -> (r: Exporter)
        ensures
            true,
    {
        Exporter
    }

    /// Renders the records as one CSV document: the header line, then
    /// one encoded line per record, in order.  Fails only when the
    /// CSV writer reports a failure.
    pub fn export_to_csv(&self, data: &Vec<RecordingData>) -> (r: Result<String, ExportError>)
        ensures
            r matches Ok(text) ==> text@ == csv_text_of(data.deep_view()),
            r matches Err(e) ==> e is ExportFailed,
    {
        let mut header: Vec<String> = Vec::new();
        header.push("session_id".to_owned());
        header.push("timestamp".to_owned());
        header.push("url".to_owned());
        header.push("action".to_owned());
        header.push("metadata".to_owned());
        proof {
            assert(header.deep_view() =~~= csv_header_fields());
        }
        let mut text: String = match csv_record_line(&header) {
            Some(line) => line,
            None => {
                return Err(ExportError::ExportFailed("CSV encoding failed".to_owned()));
            },
        };
        let n = data.len();
        let mut i: usize = 0;
        while i < n
            invariant
                i <= n,
                n == data@.len(),
                text@ == csv_line_of(csv_header_fields()) + csv_body_of(
                    data.deep_view().take(i as int),
                ),
            decreases n - i,
        {
            let record = &data[i];
            let mut fields: Vec<String> = Vec::new();
            fields.push(record.session_id.clone());
            fields.push(record.timestamp.clone());
            fields.push(record.url.clone());
            fields.push(record.action.clone());
            fields.push(record.metadata.clone());
            proof {
                assert(fields.deep_view() =~~= row_fields_of(data.deep_view()[i as int]));
            }
            let line = match csv_record_line(&fields) {
                Some(line) => line,
                None => {
                    return Err(ExportError::ExportFailed("CSV encoding failed".to_owned()));
                },
            };
            text.append(line.as_str());
            proof {
                let rows = data.deep_view();
                assert(rows.take(i + 1).drop_last() =~= rows.take(i as int));
                assert(rows.take(i + 1).last() == rows[i as int]);
            }
            i = i + 1;
        }
        proof {
            assert(data.deep_view().take(n as int) =~= data.deep_view());
        }
        Ok(text)
    }

    /// Renders the records as the complete HTML report: the fixed
    /// heading and table header, one table row per record in order,
    /// and the closing tags.
    pub fn export_to_html(&self, data: &Vec<RecordingData>) -> (r: String)
        ensures
            r@ == html_text_of(data.deep_view()),
    {
        let mut text: String =
            "<!DOCTYPE html>\n<html>\n<head>\n    <title>Recording Export</title>\n    <style>\n        body { font-family: Arial, sans-serif; margin: 20px; }\n        table { border-collapse: collapse; width: 100%; }\n        th, td { border: 1px solid #ddd; padding: 8px; text-align: left; }\n        th { background-color: #4CAF50; color: white; }\n        tr:nth-child(even) { background-color: #f2f2f2; }\n    </style>\n</head>\n<body>\n    <h1>Recording Export</h1>\n    <table>\n        <tr>\n            <th>Session ID</th>\n            <th>Timestamp</th>\n            <th>URL</th>\n            <th>Action</th>\n            <th>Metadata</th>\n        </tr>\n".to_owned();
        let n = data.len();
        let mut i: usize = 0;
        while i < n
            invariant
                i <= n,
                n == data@.len(),
                text@ == html_head() + html_body_of(data.deep_view().take(i as int)),
            decreases n - i,
        {
            let record = &data[i];
            text.append("        <tr>\n            <td>");
            text.append(record.session_id.as_str());
            text.append("</td>\n            <td>");
            text.append(record.timestamp.as_str());
            text.append("</td>\n            <td>");
            text.append(record.url.as_str());
            text.append("</td>\n            <td>");
            text.append(record.action.as_str());
            text.append("</td>\n            <td>");
            text.append(record.metadata.as_str());
            text.append("</td>\n        </tr>\n");
            proof {
                let rows = data.deep_view();
                assert(rows.take(i + 1).drop_last() =~= rows.take(i as int));
                assert(rows.take(i + 1).last() == rows[i as int]);
                assert(text@ =~= html_head() + html_body_of(rows.take(i + 1)));
            }
            i = i + 1;
        }
        text.append("    </table>\n</body>\n</html>\n");
        proof {
            assert(data.deep_view().take(n as int) =~= data.deep_view());
            assert(text@ =~= html_text_of(data.deep_view()));
        }
        text
    }
}

impl Default for Exporter {
    fn default() -> (r: Self)
        ensures
            true,
    {
        Exporter::new()
    }
}

} // verus!
