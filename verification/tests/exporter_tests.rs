use site_recorder::exporter::{Exporter, RecordingData};

fn record(sid: &str, url: &str) -> RecordingData {
    RecordingData {
        session_id: sid.to_string(),
        timestamp: "2024-01-01T00:00:00+00:00".to_string(),
        url: url.to_string(),
        action: "navigate".to_string(),
        metadata: "{\"page\":1}".to_string(),
    }
}

#[test]
fn test_exporter_creation() {
    let exporter = Exporter::new();
    assert!(std::mem::size_of_val(&exporter) == 0);
}

#[test]
fn csv_export_has_header_and_rows() {
    let exporter = Exporter::new();
    let data = vec![record("s1", "https://example.com")];
    let text = exporter.export_to_csv(&data).unwrap();
    assert_eq!(
        text,
        "session_id,timestamp,url,action,metadata\n\
         s1,2024-01-01T00:00:00+00:00,https://example.com,navigate,\"{\"\"page\"\":1}\"\n"
    );
}

#[test]
fn csv_export_quotes_fields_with_commas() {
    let exporter = Exporter::new();
    let mut r = record("s2", "https://example.com");
    r.action = "click,scroll".to_string();
    r.metadata = "x".to_string();
    let text = exporter.export_to_csv(&vec![r]).unwrap();
    assert_eq!(
        text,
        "session_id,timestamp,url,action,metadata\n\
         s2,2024-01-01T00:00:00+00:00,https://example.com,\"click,scroll\",x\n"
    );
}

#[test]
fn csv_export_of_no_records_is_header_only() {
    let exporter = Exporter::new();
    let text = exporter.export_to_csv(&Vec::new()).unwrap();
    assert_eq!(text, "session_id,timestamp,url,action,metadata\n");
}

#[test]
fn html_export_contains_one_row_per_record() {
    let exporter = Exporter::new();
    let data = vec![record("s1", "https://a.example"), record("s2", "https://b.example")];
    let html = exporter.export_to_html(&data);
    assert!(html.starts_with("<!DOCTYPE html>"));
    assert!(html.ends_with("</html>\n"));
    assert_eq!(html.matches("<tr>").count(), 3);
    assert!(html.contains("<td>s1</td>"));
    assert!(html.contains("<td>s2</td>"));
    assert!(html.contains("<td>https://a.example</td>"));
    assert!(html.contains("<th>Metadata</th>"));
}

#[test]
fn html_export_of_no_records_is_head_and_tail() {
    let exporter = Exporter::new();
    let html = exporter.export_to_html(&Vec::new());
    assert!(html.contains("<h1>Recording Export</h1>"));
    assert_eq!(html.matches("<td>").count(), 0);
}
