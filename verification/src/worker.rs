//! The requests to the service that keeps the fleet and takes firmware, and what its replies mean.
use vstd::prelude::*;
use vstd::string::*;
use vstd::utf8::{decode_utf8, valid_utf8};
use crate::outside::{json_field, json_text_field, lossy_text, utf8_lossy};
use crate::text::{opt_view, trim, trim_end_char, trimmed, views, without_trailing};
use crate::types::{AppEvent, FleetState};

verus! {

/// The kind of a request.
#[derive(Debug, Clone, Copy, PartialEq, Eq, Structural)]
pub enum Method {
    Get,
    Put,
    Post,
}

/// A request to the service.
#[derive(Debug, PartialEq)]
pub struct HttpRequest {
    pub method: Method,
    pub url: String,
    /// The value of the `Authorization` header.
    pub authorization: String,
}

/// All that uploading one binary needs.
#[derive(Debug, PartialEq)]
pub struct UploadJob {
    /// The binary.
    pub bin_path: String,
    /// The device, or the sketch that several devices share.
    pub device_id: String,
    pub version: String,
    pub worker_url: String,
    pub token: String,
    pub vps_host: String,
    pub vps_key: String,
    pub vps_firmware_dir: String,
    pub vps_firmware_url: String,
}

/// What an [`UploadJob`] holds.
pub struct JobView {
    pub bin_path: Seq<char>,
    pub device_id: Seq<char>,
    pub version: Seq<char>,
    pub worker_url: Seq<char>,
    pub token: Seq<char>,
    pub vps_host: Seq<char>,
    pub vps_key: Seq<char>,
    pub vps_firmware_dir: Seq<char>,
    pub vps_firmware_url: Seq<char>,
}

impl View for UploadJob {
    type V = JobView;

    open spec fn view(&self) -> JobView {
        JobView {
            bin_path: self.bin_path@,
            device_id: self.device_id@,
            version: self.version@,
            worker_url: self.worker_url@,
            token: self.token@,
            vps_host: self.vps_host@,
            vps_key: self.vps_key@,
            vps_firmware_dir: self.vps_firmware_dir@,
            vps_firmware_url: self.vps_firmware_url@,
        }
    }
}

/// The header that carries the key to the service.
pub open spec fn bearer_of(token: Seq<char>) -> Seq<char> {
    "Bearer "@ + token
}

/// A status that tells of success.
pub open spec fn is_success_code(code: u16) -> bool {
    200 <= code < 300
}

/// The request is of `method` to `path` below `base`, with the key `token`.
pub open spec fn is_request(
    r: HttpRequest,
    method: Method,
    base: Seq<char>,
    path: Seq<char>,
    token: Seq<char>,
) -> bool {
    r.method == method && r.url@ == base + path && r.authorization@ == bearer_of(token)
}

/// The name that the firmware of a device is stored under.
pub open spec fn firmware_name(device_id: Seq<char>, version: Seq<char>) -> Seq<char> {
    device_id + "_v"@ + version + ".bin"@
}

/// The firmware goes to a host of its own too: both the host and its key are given.
pub open spec fn has_vps(job: JobView) -> bool {
    job.vps_host.len() > 0 && job.vps_key.len() > 0
}

/// Where the copy on that host is fetched from.
pub open spec fn vps_url(job: JobView) -> Seq<char> {
    without_trailing(job.vps_firmware_url, '/') + "/"@ + firmware_name(job.device_id, job.version)
}

/// The arguments of `scp` that copy the binary to that host.
pub open spec fn scp_arguments(job: JobView) -> Seq<Seq<char>> {
    seq![
        "-i"@,
        job.vps_key,
        "-o"@,
        "StrictHostKeyChecking=no"@,
        "-o"@,
        "BatchMode=yes"@,
        job.bin_path,
        job.vps_host + ":"@ + job.vps_firmware_dir + "/"@ + firmware_name(
            job.device_id,
            job.version,
        ),
    ]
}

fn request(method: Method, base: &str, path: &str, token: &str) -> (r: HttpRequest)
    ensures
        is_request(r, method, base@, path@, token@),
{
    HttpRequest {
        method,
        url: base.to_owned().concat(path),
        authorization: "Bearer ".to_owned().concat(token),
    }
}

/// Tells whether a status is one of success.
pub fn is_success(code: u16) -> (r: bool)
    ensures
        r == is_success_code(code),
{
    200 <= code && code < 300
}

/// The request that fetches the fleet.
pub fn get_fleet(worker_url: &str, token: &str) -> (r: HttpRequest)
    ensures
        is_request(r, Method::Get, worker_url@, "/fleet"@, token@),
{
    request(Method::Get, worker_url, "/fleet", token)
}

/// What a reply to [`get_fleet`] with this status means; `shown` is the status in words.
pub fn get_fleet_reply(code: u16, shown: &str) -> (r: Result<(), String>)
    ensures
        r is Ok <==> is_success_code(code),
        r matches Err(e) ==> e@ == "HTTP "@ + shown@,
{
    if is_success(code) {
        Ok(())
    } else {
        Err("HTTP ".to_owned().concat(shown))
    }
}

/// The request that stores the fleet.
pub fn save_fleet(worker_url: &str, token: &str) -> (r: HttpRequest)
    ensures
        is_request(r, Method::Put, worker_url@, "/fleet"@, token@),
{
    request(Method::Put, worker_url, "/fleet", token)
}

/// What a reply to [`save_fleet`] with this status means.
pub fn save_fleet_reply(code: u16, shown: &str) -> (r: Result<(), String>)
    ensures
        r is Ok <==> is_success_code(code),
        r matches Err(e) ==> e@ == "HTTP "@ + shown@ + " saving fleet"@,
{
    if is_success(code) {
        Ok(())
    } else {
        Err("HTTP ".to_owned().concat(shown).concat(" saving fleet"))
    }
}

/// The name that the firmware of a job is stored under.
pub fn firmware_file_name(job: &UploadJob) -> (r: String)
    ensures
        r@ == firmware_name(job.device_id@, job.version@),
{
    job.device_id.clone().concat("_v").concat(job.version.as_str()).concat(".bin")
}

/// The request that carries the firmware to the service.
pub fn upload_firmware(job: &UploadJob) -> (r: HttpRequest)
    ensures
        is_request(r, Method::Post, job.worker_url@, "/upload"@, job.token@),
{
    request(Method::Post, job.worker_url.as_str(), "/upload", job.token.as_str())
}

/// The form that carries the firmware.
#[derive(Debug, PartialEq)]
pub struct UploadForm {
    /// The fields of text, with their names.
    pub fields: Vec<(String, String)>,
    /// The name of the field that holds the binary.
    pub file_field: String,
    /// The name that the binary is given.
    pub file_name: String,
    /// The kind of its content.
    pub mime: String,
}

/// The form that goes with [`upload_firmware`].
pub fn upload_form(job: &UploadJob) -> (r: UploadForm)
    ensures
        views(r.fields@) == seq![
            ("deviceId"@, job.device_id@),
            ("version"@, job.version@),
        ],
        r.file_field@ == "file"@,
        r.file_name@ == firmware_name(job.device_id@, job.version@),
        r.mime@ == "application/octet-stream"@,
{
    let mut fields: Vec<(String, String)> = Vec::new();
    fields.push(("deviceId".to_owned(), job.device_id.clone()));
    fields.push(("version".to_owned(), job.version.clone()));
    assert(views(fields@) =~= seq![("deviceId"@, job.device_id@), ("version"@, job.version@)]);
    UploadForm {
        fields,
        file_field: "file".to_owned(),
        file_name: firmware_file_name(job),
        mime: "application/octet-stream".to_owned(),
    }
}

/// What comes after the service took the firmware.
#[derive(Debug, PartialEq)]
pub enum UploadNext {
    /// Nothing: the firmware is fetched from this address.
    Done(String),
    /// `scp` is run with these arguments.
    Copy(Vec<String>),
}

/// What [`UploadNext`] stands for.
pub enum NextView {
    Done(Seq<char>),
    Copy(Seq<Seq<char>>),
}

impl View for UploadNext {
    type V = NextView;

    open spec fn view(&self) -> NextView {
        match self {
            UploadNext::Done(url) => NextView::Done(url@),
            UploadNext::Copy(args) => NextView::Copy(views(args@)),
        }
    }
}

/// The text in which the outcome of a step is read, or what the step leads to.
pub open spec fn result_view<T: View>(r: Result<T, String>) -> Result<T::V, Seq<char>> {
    match r {
        Ok(t) => Ok(t.view()),
        Err(e) => Err(e@),
    }
}

/// What a reply of success leads to, by the `url` field of its body.
pub open spec fn after_reply(
    job: JobView,
    field: Option<(Option<Seq<char>>, Seq<char>)>,
) -> Result<NextView, Seq<char>> {
    match field {
        None => Err("error decoding response body"@),
        Some((None, shown)) => Err("No url in Cloudflare response: "@ + shown),
        Some((Some(url), _)) => if has_vps(job) {
            Ok(NextView::Copy(scp_arguments(job)))
        } else {
            Ok(NextView::Done(url))
        },
    }
}

/// What the reply to [`upload_firmware`] leads to.
pub open spec fn after_upload(
    job: JobView,
    code: u16,
    shown: Seq<char>,
    field: Option<(Option<Seq<char>>, Seq<char>)>,
) -> Result<NextView, Seq<char>> {
    if !is_success_code(code) {
        Err("HTTP "@ + shown + " uploading firmware"@)
    } else {
        after_reply(job, field)
    }
}

/// The arguments of `scp` that copy the binary to the host that serves it.
pub fn scp_args(job: &UploadJob) -> (r: Vec<String>)
    ensures
        views(r@) == scp_arguments(job@),
{
    let remote: String = job.vps_host.clone().concat(":").concat(
        job.vps_firmware_dir.as_str(),
    ).concat("/").concat(firmware_file_name(job).as_str());
    let mut r: Vec<String> = Vec::new();
    r.push("-i".to_owned());
    r.push(job.vps_key.clone());
    r.push("-o".to_owned());
    r.push("StrictHostKeyChecking=no".to_owned());
    r.push("-o".to_owned());
    r.push("BatchMode=yes".to_owned());
    r.push(job.bin_path.clone());
    r.push(remote);
    assert(views(r@) =~= scp_arguments(job@));
    r
}

/// What follows a reply of success whose body was read: `None` where it was no JSON, else the
/// `url` in it and the whole of it as it is shown in a message.
pub fn upload_accepted(job: &UploadJob, field: Option<(Option<String>, String)>) -> (r: Result<
    UploadNext,
    String,
>)
    ensures
        result_view(r) == after_reply(
            job@,
            match field {
                Some(f) => Some((opt_view(f.0), f.1@)),
                None => None,
            },
        ),
{
    match field {
        None => Err("error decoding response body".to_owned()),
        Some((None, shown)) => Err(
            "No url in Cloudflare response: ".to_owned().concat(shown.as_str()),
        ),
        Some((Some(url), _)) => {
            if !job.vps_host.as_str().is_empty() && !job.vps_key.as_str().is_empty() {
                Ok(UploadNext::Copy(scp_args(job)))
            } else {
                Ok(UploadNext::Done(url))
            }
        },
    }
}

/// What follows the reply to [`upload_firmware`].
pub fn upload_reply(job: &UploadJob, code: u16, shown: &str, body: &[u8]) -> (r: Result<
    UploadNext,
    String,
>)
    ensures
        result_view(r) == after_upload(job@, code, shown@, json_field(body@, "url"@)),
{
    if !is_success(code) {
        return Err("HTTP ".to_owned().concat(shown).concat(" uploading firmware"));
    }
    match json_text_field(body, "url") {
        Ok(field) => upload_accepted(job, Some(field)),
        Err(_) => upload_accepted(job, None),
    }
}

/// How running `scp` went.
#[derive(Debug)]
pub enum ScpOutcome {
    /// The task that ran it was lost.
    Lost(String),
    /// It could not be started.
    NotStarted(String),
    /// It ran, with or without success, and printed this.
    Ran { success: bool, stderr: Vec<u8> },
}

/// What a run of `scp` leads to: the address of the copy, or what went wrong.
pub open spec fn after_scp(job: JobView, outcome: ScpOutcome) -> Result<Seq<char>, Seq<char>> {
    match outcome {
        ScpOutcome::Lost(e) => Err(e@),
        ScpOutcome::NotStarted(e) => Err("scp launch failed: "@ + e@),
        ScpOutcome::Ran { success, stderr } => if success {
            Ok(vps_url(job))
        } else {
            Err("SCP to VPS failed: "@ + trimmed(lossy_text(stderr@)))
        },
    }
}

/// What went wrong with a run of `scp`, given what it printed.
pub fn scp_failure(printed: &str) -> (r: String)
    ensures
        r@ == "SCP to VPS failed: "@ + trimmed(printed@),
{
    "SCP to VPS failed: ".to_owned().concat(trim(printed).as_str())
}

/// The address of the copy that `scp` made, or what went wrong.
pub fn scp_reply(job: &UploadJob, outcome: ScpOutcome) -> (r: Result<String, String>)
    ensures
        result_view(r) == after_scp(job@, outcome),
        (outcome matches ScpOutcome::Ran { success: false, stderr } && valid_utf8(stderr@))
            ==> result_view(r) == Err::<Seq<char>, Seq<char>>(
            "SCP to VPS failed: "@ + trimmed(decode_utf8(outcome->stderr@)),
        ),
{
    match outcome {
        ScpOutcome::Lost(e) => Err(e),
        ScpOutcome::NotStarted(e) => Err("scp launch failed: ".to_owned().concat(e.as_str())),
        ScpOutcome::Ran { success, stderr } => {
            if success {
                let base: String = trim_end_char(job.vps_firmware_url.as_str(), '/');
                Ok(base.concat("/").concat(firmware_file_name(job).as_str()))
            } else {
                Err(scp_failure(utf8_lossy(stderr.as_slice()).as_str()))
            }
        },
    }
}

/// What is reported when fetching the fleet is over.
pub fn fleet_load_event(result: Result<FleetState, String>) -> (r: AppEvent)
    ensures
        match result {
            Ok(f) => r == AppEvent::FleetLoaded(f),
            Err(e) => r matches AppEvent::Error(m) && m@ == "Fleet load: "@ + e@,
        },
{
    match result {
        Ok(f) => AppEvent::FleetLoaded(f),
        Err(e) => AppEvent::Error("Fleet load: ".to_owned().concat(e.as_str())),
    }
}

/// What is reported when storing the fleet is over.
pub fn fleet_save_event(result: Result<(), String>) -> (r: AppEvent)
    ensures
        match result {
            Ok(_) => r is FleetSaved,
            Err(e) => r matches AppEvent::Error(m) && m@ == "Fleet save: "@ + e@,
        },
{
    match result {
        Ok(_) => AppEvent::FleetSaved,
        Err(e) => AppEvent::Error("Fleet save: ".to_owned().concat(e.as_str())),
    }
}

/// What is reported when the upload for one device is over.
pub fn upload_event(result: Result<String, String>) -> (r: AppEvent)
    ensures
        match result {
            Ok(u) => r matches AppEvent::UploadDone { url } && url@ == u@,
            Err(e) => r matches AppEvent::Error(m) && m@ == "Upload: "@ + e@,
        },
{
    match result {
        Ok(url) => AppEvent::UploadDone { url },
        Err(e) => AppEvent::Error("Upload: ".to_owned().concat(e.as_str())),
    }
}

/// What is reported when the upload for a sketch of the bulk deployment is over.
pub fn bulk_upload_event(sketch_dir: String, result: Result<String, String>) -> (r: AppEvent)
    ensures
        match result {
            Ok(u) => r matches AppEvent::BulkUploadDone { sketch_dir: dir, url } && dir@
                == sketch_dir@ && url@ == u@,
            Err(e) => r matches AppEvent::Error(m) && m@ == "Bulk upload: "@ + e@,
        },
{
    match result {
        Ok(url) => AppEvent::BulkUploadDone { sketch_dir, url },
        Err(e) => AppEvent::Error("Bulk upload: ".to_owned().concat(e.as_str())),
    }
}

/// With a host of its own for firmware, the address that devices are given is on that host and
/// not the one that the service replied.
pub proof fn law_vps_address_is_used(
    job: JobView,
    url: Seq<char>,
    shown: Seq<char>,
    stderr: Vec<u8>,
)
    requires
        has_vps(job),
    ensures
        after_reply(job, Some((Some(url), shown))) == Ok::<NextView, Seq<char>>(
            NextView::Copy(scp_arguments(job)),
        ),
        scp_arguments(job).last() == job.vps_host + ":"@ + job.vps_firmware_dir + "/"@
            + firmware_name(job.device_id, job.version),
        after_scp(job, ScpOutcome::Ran { success: true, stderr }) == Ok::<Seq<char>, Seq<char>>(
            vps_url(job),
        ),
{
}

} // verus!
