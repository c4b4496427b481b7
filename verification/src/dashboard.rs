//! Calls to Cursor's web API made with a user's session: what they send, and the answer
//! given for what came back.
use vstd::prelude::*;

use crate::account::concat_str;

verus! {

/// Which web API call was made.
#[derive(PartialEq, Eq, Structural)]
pub enum DashboardCall {
    DeleteAccount,
    AuthorizationLogin,
    AuthorizationPoll,
}

/// What came back from a call: an answer with its status code, the status as `Display`
/// writes it (such as `200 OK`) and its body (or why the body could not be read); or why the
/// request failed.
pub enum ApiOutcome {
    Answered { status: u16, status_text: String, body: Result<String, String> },
    Unreachable(String),
}

/// The answer given for a call: whether it succeeded, the status code when there was one,
/// the message, and the body when it was read.
pub struct ApiReply {
    pub success: bool,
    pub status: Option<u16>,
    pub message: String,
    pub body: Option<String>,
}

/// A success status, as `StatusCode::is_success` decides: from 200 to 299.
pub open spec fn is_success_status(status: u16) -> bool {
    200 <= status <= 299
}

/// The words a call's messages use: (succeeded, failed, body unreadable, request failed).
pub open spec fn call_words(call: DashboardCall) -> (Seq<char>, Seq<char>, Seq<char>, Seq<char>) {
    match call {
        DashboardCall::DeleteAccount => ("✅ 删除账户请求成功！状态码: "@, "❌ 删除账户失败！状态码: "@, "❌ 读取响应失败: "@, "❌ 网络请求失败: "@),
        DashboardCall::AuthorizationLogin => (
            "✅ 授权登录请求成功！状态码: "@,
            "❌ 授权登录失败！状态码: "@,
            "❌ 读取授权登录响应失败: "@,
            "❌ 网络请求授权登录失败: "@,
        ),
        DashboardCall::AuthorizationPoll => (
            "✅ 授权登录Poll请求成功！状态码: "@,
            "❌ 授权登录Poll失败！状态码: "@,
            "❌ 读取授权登录Poll响应失败: "@,
            "❌ 网络请求授权登录Poll失败: "@,
        ),
    }
}

fn words(call: &DashboardCall) -> (res: (&'static str, &'static str, &'static str, &'static str))
    ensures
        (res.0@, res.1@, res.2@, res.3@) == call_words(*call),
{
    match call {
        DashboardCall::DeleteAccount => ("✅ 删除账户请求成功！状态码: ", "❌ 删除账户失败！状态码: ", "❌ 读取响应失败: ", "❌ 网络请求失败: "),
        DashboardCall::AuthorizationLogin => (
            "✅ 授权登录请求成功！状态码: ",
            "❌ 授权登录失败！状态码: ",
            "❌ 读取授权登录响应失败: ",
            "❌ 网络请求授权登录失败: ",
        ),
        DashboardCall::AuthorizationPoll => (
            "✅ 授权登录Poll请求成功！状态码: ",
            "❌ 授权登录Poll失败！状态码: ",
            "❌ 读取授权登录Poll响应失败: ",
            "❌ 网络请求授权登录Poll失败: ",
        ),
    }
}

/// The answer for what a call brought back.
pub fn api_reply(call: &DashboardCall, outcome: ApiOutcome) -> (res: ApiReply)
    ensures
        ({
            let (ok, failed, unreadable, unreachable) = call_words(*call);
            match outcome {
                ApiOutcome::Answered { status, status_text, body } => match body {
                    Ok(b) => {
                        &&& res.success == is_success_status(status)
                        &&& res.status == Some(status)
                        &&& res.message@ == (if is_success_status(status) {
                            ok
                        } else {
                            failed
                        }) + status_text@ + ", 响应: "@ + b@
                        &&& res.body matches Some(rb) && rb@ == b@
                    },
                    Err(e) => {
                        &&& !res.success
                        &&& res.status == Some(status)
                        &&& res.message@ == unreadable + e@
                        &&& res.body is None
                    },
                },
                ApiOutcome::Unreachable(e) => !res.success && res.status is None && res.message@ == unreachable + e@
                    && res.body is None,
            }
        }),
{
    let (ok, failed, unreadable, unreachable) = words(call);
    match outcome {
        ApiOutcome::Answered { status, status_text, body } => match body {
            Ok(b) => {
                let success = 200 <= status && status <= 299;
                let head = if success {
                    ok
                } else {
                    failed
                };
                let message = concat_str(head, status_text.as_str()).concat(", 响应: ").concat(b.as_str());
                ApiReply { success, status: Some(status), message, body: Some(b) }
            },
            Err(e) => ApiReply { success: false, status: Some(status), message: concat_str(unreadable, e.as_str()), body: None },
        },
        ApiOutcome::Unreachable(e) => ApiReply {
            success: false,
            status: None,
            message: concat_str(unreachable, e.as_str()),
            body: None,
        },
    }
}

/// The cookie a call carries the session token in.
pub fn session_cookie(workos_cursor_session_token: &str) -> (res: String)
    ensures
        res@ == "WorkosCursorSessionToken="@ + workos_cursor_session_token@,
{
    concat_str("WorkosCursorSessionToken=", workos_cursor_session_token)
}

/// The address polled for a pending authorization.
pub fn authorization_poll_url(uuid: &str, verifier: &str) -> (res: String)
    ensures
        res@ == "https://api2.cursor.sh/auth/poll?uuid="@ + uuid@ + "&verifier="@ + verifier@,
{
    concat_str("https://api2.cursor.sh/auth/poll?uuid=", uuid).concat("&verifier=").concat(verifier)
}

/// Which usage report was asked for.
#[derive(PartialEq, Eq, Structural)]
pub enum UsageReport {
    Period,
    UserAnalytics,
    Events,
}

/// The messages of a usage report: (found, not found, failed).
pub open spec fn usage_words(report: UsageReport) -> (Seq<char>, Seq<char>, Seq<char>) {
    match report {
        UsageReport::Period => ("Successfully retrieved usage data"@, "No usage data found"@, "Failed to get usage data: "@),
        UsageReport::UserAnalytics => (
            "Successfully retrieved user analytics data"@,
            "No user analytics data found"@,
            "Failed to get user analytics data: "@,
        ),
        UsageReport::Events => (
            "Successfully retrieved usage events data"@,
            "No usage events data found"@,
            "Failed to get usage events data: "@,
        ),
    }
}

/// The answer for a usage report, given whether data was found or why the request failed.
pub fn usage_reply(report: &UsageReport, outcome: Result<bool, String>) -> (res: (bool, String))
    ensures
        ({
            let (found, missing, failed) = usage_words(*report);
            match outcome {
                Ok(true) => res.0 && res.1@ == found,
                Ok(false) => !res.0 && res.1@ == missing,
                Err(e) => !res.0 && res.1@ == failed + e@,
            }
        }),
{
    let (found, missing, failed) = match report {
        UsageReport::Period => ("Successfully retrieved usage data", "No usage data found", "Failed to get usage data: "),
        UsageReport::UserAnalytics => (
            "Successfully retrieved user analytics data",
            "No user analytics data found",
            "Failed to get user analytics data: ",
        ),
        UsageReport::Events => (
            "Successfully retrieved usage events data",
            "No usage events data found",
            "Failed to get usage events data: ",
        ),
    };
    match outcome {
        Ok(true) => (true, String::from_str(found)),
        Ok(false) => (false, String::from_str(missing)),
        Err(e) => (false, concat_str(failed, e.as_str())),
    }
}

} // verus!
