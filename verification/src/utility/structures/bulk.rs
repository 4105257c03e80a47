use vstd::prelude::*;

use crate::dates::{parse_rfc3339, rfc3339_of, ZBTimestamp};
use crate::json::{json_lookup, json_shape_error, opt_str_field, req_bool_field, req_str_field, Json, JsonV};
use crate::message::{flattened_of, message_from_json, message_of};
use crate::numbers::u64_dec_str;
use crate::percent::{parse_percent_milli, percent_milli_of};
use crate::utility::{ZBError, ZBResult};

verus! {

/// The feedback envelope of the bulk submit and delete endpoints. The
/// message arrives in whatever shape the service chose and is collapsed to
/// one display string by the lenient decoder.
#[derive(Clone, Debug, PartialEq, Eq)]
pub struct ZBFileFeedback {
    pub success: bool,
    pub message: String,
    pub file_name: Option<String>,
    pub file_id: Option<String>,
}

pub struct ZBFileFeedbackV {
    pub success: bool,
    pub message: Seq<char>,
    pub file_name: Option<Seq<char>>,
    pub file_id: Option<Seq<char>>,
}

impl View for ZBFileFeedback {
    type V = ZBFileFeedbackV;

    open spec fn view(&self) -> ZBFileFeedbackV {
        ZBFileFeedbackV {
            success: self.success,
            message: self.message@,
            file_name: self.file_name.deep_view(),
            file_id: self.file_id.deep_view(),
        }
    }
}

/// Whether a JSON document has the feedback shape: a boolean success flag,
/// a message member of any shape, and optional file name and id strings.
pub open spec fn feedback_ok(v: JsonV) -> bool {
    &&& req_bool_field(v, "success"@) is Ok
    &&& json_lookup(v, "message"@) is Some
    &&& opt_str_field(v, "file_name"@) is Ok
    &&& opt_str_field(v, "file_id"@) is Ok
}

pub open spec fn feedback_of(v: JsonV) -> ZBFileFeedbackV {
    ZBFileFeedbackV {
        success: req_bool_field(v, "success"@)->Ok_0,
        message: flattened_of(message_of(json_lookup(v, "message"@)->0)),
        file_name: opt_str_field(v, "file_name"@)->Ok_0,
        file_id: opt_str_field(v, "file_id"@)->Ok_0,
    }
}

impl ZBFileFeedback {
    /// Decodes a feedback response body's parsed JSON. The message member
    /// itself never fails to decode: any shape is meaningful.
    pub fn from_json(j: &Json) -> (r: ZBResult<ZBFileFeedback>)
        ensures
            feedback_ok(j@) ==> (r matches Ok(x) && x@ == feedback_of(j@)),
            !feedback_ok(j@) ==> (r matches Err(e) && e is JsonError),
    {
        let success = match j.req_bool("success") {
            Ok(b) => b,
            Err(_) => {
                return Err(ZBError::JsonError(json_shape_error("missing or invalid field: success")));
            },
        };
        let message = match j.get("message") {
            Some(m) => message_from_json(m).flattened(),
            None => {
                return Err(ZBError::JsonError(json_shape_error("missing field: message")));
            },
        };
        let file_name = match j.opt_str("file_name") {
            Ok(t) => t,
            Err(_) => {
                return Err(ZBError::JsonError(json_shape_error("missing or invalid field: file_name")));
            },
        };
        let file_id = match j.opt_str("file_id") {
            Ok(t) => t,
            Err(_) => {
                return Err(ZBError::JsonError(json_shape_error("missing or invalid field: file_id")));
            },
        };
        Ok(ZBFileFeedback { success, message, file_name, file_id })
    }
}

/// A bulk file job's status: its lifecycle state, the completion
/// percentage in thousandths of a percent, and the upload instant.
#[derive(Clone, Debug, PartialEq, Eq)]
pub struct ZBFileStatus {
    pub success: bool,
    pub file_id: String,
    pub file_name: String,
    pub file_status: String,
    pub error_reason: Option<String>,
    pub return_url: Option<String>,
    pub upload_date: ZBTimestamp,
    /// The completion percentage scaled to thousandths of a percent; a
    /// malformed wire value coerces to the sentinel for minus one percent.
    pub complete_percentage: i64,
}

pub struct ZBFileStatusV {
    pub success: bool,
    pub file_id: Seq<char>,
    pub file_name: Seq<char>,
    pub file_status: Seq<char>,
    pub error_reason: Option<Seq<char>>,
    pub return_url: Option<Seq<char>>,
    pub upload_date: ZBTimestamp,
    pub complete_percentage: int,
}

impl View for ZBFileStatus {
    type V = ZBFileStatusV;

    open spec fn view(&self) -> ZBFileStatusV {
        ZBFileStatusV {
            success: self.success,
            file_id: self.file_id@,
            file_name: self.file_name@,
            file_status: self.file_status@,
            error_reason: self.error_reason.deep_view(),
            return_url: self.return_url.deep_view(),
            upload_date: self.upload_date,
            complete_percentage: self.complete_percentage as int,
        }
    }
}

pub open spec fn file_status_ok(v: JsonV) -> bool {
    &&& req_bool_field(v, "success"@) is Ok
    &&& req_str_field(v, "file_id"@) is Ok
    &&& req_str_field(v, "file_name"@) is Ok
    &&& req_str_field(v, "file_status"@) is Ok
    &&& opt_str_field(v, "error_reason"@) is Ok
    &&& opt_str_field(v, "return_url"@) is Ok
    &&& req_str_field(v, "upload_date"@) matches Ok(t) && rfc3339_of(t) is Some
    &&& req_str_field(v, "complete_percentage"@) is Ok
}

pub open spec fn file_status_of(v: JsonV) -> ZBFileStatusV {
    ZBFileStatusV {
        success: req_bool_field(v, "success"@)->Ok_0,
        file_id: req_str_field(v, "file_id"@)->Ok_0,
        file_name: req_str_field(v, "file_name"@)->Ok_0,
        file_status: req_str_field(v, "file_status"@)->Ok_0,
        error_reason: opt_str_field(v, "error_reason"@)->Ok_0,
        return_url: opt_str_field(v, "return_url"@)->Ok_0,
        upload_date: rfc3339_of(req_str_field(v, "upload_date"@)->Ok_0)->0,
        complete_percentage: percent_milli_of(req_str_field(v, "complete_percentage"@)->Ok_0),
    }
}

impl ZBFileStatus {
    /// Decodes a file-status response body's parsed JSON. The percentage
    /// string coerces rather than fails; the upload date must be RFC 3339.
    pub fn from_json(j: &Json) -> (r: ZBResult<ZBFileStatus>)
        ensures
            file_status_ok(j@) ==> (r matches Ok(x) && x@ == file_status_of(j@)),
            !file_status_ok(j@) ==> (r matches Err(e) && e is JsonError),
    {
        let success = match j.req_bool("success") {
            Ok(b) => b,
            Err(_) => {
                return Err(ZBError::JsonError(json_shape_error("missing or invalid field: success")));
            },
        };
        let file_id = match j.req_str("file_id") {
            Ok(t) => t,
            Err(_) => {
                return Err(ZBError::JsonError(json_shape_error("missing or invalid field: file_id")));
            },
        };
        let file_name = match j.req_str("file_name") {
            Ok(t) => t,
            Err(_) => {
                return Err(ZBError::JsonError(json_shape_error("missing or invalid field: file_name")));
            },
        };
        let file_status = match j.req_str("file_status") {
            Ok(t) => t,
            Err(_) => {
                return Err(ZBError::JsonError(json_shape_error("missing or invalid field: file_status")));
            },
        };
        let error_reason = match j.opt_str("error_reason") {
            Ok(t) => t,
            Err(_) => {
                return Err(ZBError::JsonError(json_shape_error("missing or invalid field: error_reason")));
            },
        };
        let return_url = match j.opt_str("return_url") {
            Ok(t) => t,
            Err(_) => {
                return Err(ZBError::JsonError(json_shape_error("missing or invalid field: return_url")));
            },
        };
        let upload_text = match j.req_str("upload_date") {
            Ok(t) => t,
            Err(_) => {
                return Err(ZBError::JsonError(json_shape_error("missing or invalid field: upload_date")));
            },
        };
        let upload_date = match parse_rfc3339(upload_text.as_str()) {
            Some(t) => t,
            None => {
                return Err(ZBError::JsonError(json_shape_error("upload_date is not an RFC 3339 timestamp")));
            },
        };
        let percent_text = match j.req_str("complete_percentage") {
            Ok(t) => t,
            Err(_) => {
                return Err(ZBError::JsonError(json_shape_error("missing or invalid field: complete_percentage")));
            },
        };
        let complete_percentage = parse_percent_milli(percent_text.as_str());
        Ok(ZBFileStatus {
            success,
            file_id,
            file_name,
            file_status,
            error_reason,
            return_url,
            upload_date,
            complete_percentage,
        })
    }
}

/// What a bulk result fetch yields: the raw file bytes on success, or the
/// feedback envelope when the service answers with JSON instead.
#[derive(Debug)]
pub enum ZBBulkResponse {
    Content(Vec<u8>),
    Feedback(ZBFileFeedback),
}

pub enum ZBBulkResponseV {
    Content(Seq<u8>),
    Feedback(ZBFileFeedbackV),
}

impl View for ZBBulkResponse {
    type V = ZBBulkResponseV;

    open spec fn view(&self) -> ZBBulkResponseV {
        match self {
            ZBBulkResponse::Content(bytes) => ZBBulkResponseV::Content(bytes@),
            ZBBulkResponse::Feedback(fb) => ZBBulkResponseV::Feedback(fb@),
        }
    }
}

/// Where the content of a bulk file comes from: a path on disk, an
/// in-memory buffer, or nowhere yet.
#[derive(Debug, Clone, PartialEq, Eq)]
pub enum ZBFileContentType {
    FilePath(String),
    RawContent(Vec<u8>),
    Empty,
}

impl ZBFileContentType {
    /// Whether there is no content: nothing set, or an empty buffer.
    pub fn is_empty(&self) -> (r: bool)
        ensures
            r == (self is Empty || (self matches ZBFileContentType::RawContent(v) && v@.len()
                == 0)),
    {
        match self {
            Self::Empty => true,
            Self::RawContent(vec) => vec.len() == 0,
            _ => false,
        }
    }
}

/// One field of the multipart body of a file submission: a plain text
/// field, the file read from a path, or the file from an in-memory buffer.
#[derive(Debug, Clone, PartialEq, Eq)]
pub enum ZBMultipartField {
    Text { name: String, value: String },
    FilePart { path: String },
    BytesPart { bytes: Vec<u8>, file_name: String, mime: String },
}

pub enum ZBMultipartFieldV {
    Text { name: Seq<char>, value: Seq<char> },
    FilePart { path: Seq<char> },
    BytesPart { bytes: Seq<u8>, file_name: Seq<char>, mime: Seq<char> },
}

impl View for ZBMultipartField {
    type V = ZBMultipartFieldV;

    open spec fn view(&self) -> ZBMultipartFieldV {
        match self {
            ZBMultipartField::Text { name, value } => ZBMultipartFieldV::Text {
                name: name@,
                value: value@,
            },
            ZBMultipartField::FilePart { path } => ZBMultipartFieldV::FilePart { path: path@ },
            ZBMultipartField::BytesPart { bytes, file_name, mime } => ZBMultipartFieldV::BytesPart {
                bytes: bytes@,
                file_name: file_name@,
                mime: mime@,
            },
        }
    }
}

/// A bulk file to submit: its content and the column layout options the
/// submit endpoints take.
#[derive(Debug, Clone, PartialEq, Eq)]
pub struct ZBFile {
    pub content_type: ZBFileContentType,
    pub has_header_row: bool,
    pub remove_duplicate: bool,
    pub email_address_column: u32,
    pub first_name_column: Option<u32>,
    pub last_name_column: Option<u32>,
    pub gender_column: Option<u32>,
    pub ip_address_column: Option<u32>,
}

impl Default for ZBFile {
    /// No content yet, a header row, duplicates kept, and the email
    /// address in the first column.
    fn default() -> (r: ZBFile)
        ensures
            r.content_type is Empty,
            r.has_header_row == true,
            r.remove_duplicate == false,
            r.email_address_column == 1u32,
            r.first_name_column is None,
            r.last_name_column is None,
            r.gender_column is None,
            r.ip_address_column is None,
    {
        ZBFile {
            content_type: ZBFileContentType::Empty,
            has_header_row: true,
            remove_duplicate: false,
            email_address_column: 1,
            first_name_column: None,
            last_name_column: None,
            gender_column: None,
            ip_address_column: None,
        }
    }
}

/// The spelling of a boolean in a multipart text field.
pub open spec fn bool_text(b: bool) -> Seq<char> {
    if b {
        "true"@
    } else {
        "false"@
    }
}

/// An optional column index as the one multipart field it contributes, or
/// nothing.
pub open spec fn opt_column_fields(name: Seq<char>, col: Option<u32>) -> Seq<ZBMultipartFieldV> {
    match col {
        Some(n) => seq![ZBMultipartFieldV::Text { name: name, value: u64_dec_str(n as int) }],
        None => Seq::empty(),
    }
}

/// The file part a content source contributes; meaningful when the source
/// is not empty.
pub open spec fn file_part_of(c: ZBFileContentType) -> ZBMultipartFieldV {
    match c {
        ZBFileContentType::FilePath(p) => ZBMultipartFieldV::FilePart { path: p@ },
        ZBFileContentType::RawContent(b) => ZBMultipartFieldV::BytesPart {
            bytes: b@,
            file_name: "file.csv"@,
            mime: "text/csv"@,
        },
        ZBFileContentType::Empty => ZBMultipartFieldV::FilePart { path: Seq::empty() },
    }
}

/// The full multipart plan of a file: the file part, the three fixed text
/// fields, then the optional column fields in their fixed order.
pub open spec fn multipart_plan_of(f: ZBFile) -> Seq<ZBMultipartFieldV> {
    seq![
        file_part_of(f.content_type),
        ZBMultipartFieldV::Text { name: "has_header_row"@, value: bool_text(f.has_header_row) },
        ZBMultipartFieldV::Text { name: "remove_duplicate"@, value: bool_text(f.remove_duplicate) },
        ZBMultipartFieldV::Text {
            name: "email_address_column"@,
            value: u64_dec_str(f.email_address_column as int),
        },
    ] + opt_column_fields("first_name_column"@, f.first_name_column) + opt_column_fields(
        "last_name_column"@,
        f.last_name_column,
    ) + opt_column_fields("gender_column"@, f.gender_column) + opt_column_fields(
        "ip_address_column"@,
        f.ip_address_column,
    )
}

impl ZBFile {
    pub fn from_path(path_to_file: String) -> (r: ZBFile)
        ensures
            r.content_type matches ZBFileContentType::FilePath(p) && p@ == path_to_file@,
            r.has_header_row == true,
            r.remove_duplicate == false,
            r.email_address_column == 1u32,
            r.first_name_column is None,
            r.last_name_column is None,
            r.gender_column is None,
            r.ip_address_column is None,
    {
        let mut file = ZBFile::default();
        file.content_type = ZBFileContentType::FilePath(path_to_file);
        file
    }

    pub fn from_content(content: Vec<u8>) -> (r: ZBFile)
        ensures
            r.content_type matches ZBFileContentType::RawContent(b) && b@ == content@,
            r.has_header_row == true,
            r.remove_duplicate == false,
            r.email_address_column == 1u32,
            r.first_name_column is None,
            r.last_name_column is None,
            r.gender_column is None,
            r.ip_address_column is None,
    {
        let mut file = ZBFile::default();
        file.content_type = ZBFileContentType::RawContent(content);
        file
    }

    /// Lays out the multipart body of a submission: the file part, the
    /// fixed text fields, and one field per set column index. A file with
    /// no content source is refused.
    pub fn generate_multipart(&self) -> (r: ZBResult<Vec<ZBMultipartField>>)
        ensures
            self.content_type is Empty ==> (r matches Err(e) && e matches ZBError::ExplicitError(m)
                && m@ == "bulk content cannot be empty"@),
            !(self.content_type is Empty) ==> (r matches Ok(fields) && Seq::new(
                fields@.len(),
                |i: int| fields@[i]@,
            ) == multipart_plan_of(*self)),
    {
        let file_part: ZBMultipartField = match &self.content_type {
            ZBFileContentType::Empty => {
                return Err(ZBError::explicit("bulk content cannot be empty"));
            },
            ZBFileContentType::FilePath(file_path) => ZBMultipartField::FilePart {
                path: file_path.clone(),
            },
            ZBFileContentType::RawContent(value) => ZBMultipartField::BytesPart {
                bytes: value.clone(),
                file_name: "file.csv".to_owned(),
                mime: "text/csv".to_owned(),
            },
        };
        let mut fields: Vec<ZBMultipartField> = Vec::new();
        fields.push(file_part);
        fields.push(
            ZBMultipartField::Text {
                name: "has_header_row".to_owned(),
                value: crate::numbers::bool_to_string(self.has_header_row),
            },
        );
        fields.push(
            ZBMultipartField::Text {
                name: "remove_duplicate".to_owned(),
                value: crate::numbers::bool_to_string(self.remove_duplicate),
            },
        );
        fields.push(
            ZBMultipartField::Text {
                name: "email_address_column".to_owned(),
                value: crate::numbers::u64_to_string(self.email_address_column as u64),
            },
        );
        if let Some(amount) = self.first_name_column {
            fields.push(
                ZBMultipartField::Text {
                    name: "first_name_column".to_owned(),
                    value: crate::numbers::u64_to_string(amount as u64),
                },
            );
        }
        if let Some(amount) = self.last_name_column {
            fields.push(
                ZBMultipartField::Text {
                    name: "last_name_column".to_owned(),
                    value: crate::numbers::u64_to_string(amount as u64),
                },
            );
        }
        if let Some(amount) = self.gender_column {
            fields.push(
                ZBMultipartField::Text {
                    name: "gender_column".to_owned(),
                    value: crate::numbers::u64_to_string(amount as u64),
                },
            );
        }
        if let Some(amount) = self.ip_address_column {
            fields.push(
                ZBMultipartField::Text {
                    name: "ip_address_column".to_owned(),
                    value: crate::numbers::u64_to_string(amount as u64),
                },
            );
        }
        proof {
            assert(Seq::new(fields@.len(), |i: int| fields@[i]@) =~= multipart_plan_of(*self));
        }
        Ok(fields)
    }

    pub fn set_has_header_row(self, has_header_row: bool) -> (r: Self)
        ensures
            r == (ZBFile { has_header_row, ..self }),
    {
        ZBFile { has_header_row, ..self }
    }

    pub fn set_remove_duplicate(self, remove_duplicate: bool) -> (r: Self)
        ensures
            r == (ZBFile { remove_duplicate, ..self }),
    {
        ZBFile { remove_duplicate, ..self }
    }

    pub fn set_email_address_column(self, email_address_column: u32) -> (r: Self)
        ensures
            r == (ZBFile { email_address_column, ..self }),
    {
        ZBFile { email_address_column, ..self }
    }

    pub fn set_first_name_column(self, first_name_column: Option<u32>) -> (r: Self)
        ensures
            r == (ZBFile { first_name_column, ..self }),
    {
        ZBFile { first_name_column, ..self }
    }

    pub fn set_last_name_column(self, last_name_column: Option<u32>) -> (r: Self)
        ensures
            r == (ZBFile { last_name_column, ..self }),
    {
        ZBFile { last_name_column, ..self }
    }

    pub fn set_gender_column(self, gender_column: Option<u32>) -> (r: Self)
        ensures
            r == (ZBFile { gender_column, ..self }),
    {
        ZBFile { gender_column, ..self }
    }

    pub fn set_ip_address_column(self, ip_address_column: Option<u32>) -> (r: Self)
        ensures
            r == (ZBFile { ip_address_column, ..self }),
    {
        ZBFile { ip_address_column, ..self }
    }
}

} // verus!
