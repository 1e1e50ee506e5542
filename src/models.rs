//! Plain data records shared by the trackers and the chat commands.
use vstd::prelude::*;
use vstd::string::StringExecFns;

verus! {

/// A stored quote that can be recalled by its title or one of its aliases.
#[derive(Clone, Debug, PartialEq, Eq)]
pub struct Quote {
    pub id: i64,
    pub title: String,
    pub content: String,
    pub aliases: Vec<String>,
}

/// An alternative name under which a quote can be recalled.
#[derive(Clone, Debug, PartialEq, Eq)]
pub struct QuoteAlias {
    pub id: i64,
    pub quote_id: i64,
    pub alias: String,
}

/// What the song-link resolver answers for one track.
pub struct SonglinkResponse {
    pub links_by_platform: LinkByPlatform,
}

/// The platform links that the resolver found, per platform of interest.
pub struct LinkByPlatform {
    pub spotify: Option<LinkByPlatformInner>,
    pub youtube_music: Option<LinkByPlatformInner>,
}

/// One platform's link to a track.
pub struct LinkByPlatformInner {
    pub url: String,
    pub entity_unique_id: String,
}

/// A registered reward-portal account: the chat user it belongs to and the
/// cookie used to claim on its behalf.
#[derive(Clone, Debug)]
pub struct HoyolabAccount {
    pub id: i64,
    pub user_id: String,
    pub hoyolab_token: String,
}

/// The outcome codes that the reward portal reports.
#[derive(Clone, Copy, Debug, PartialEq, Eq, Structural)]
pub enum ZenlessReturnCode {
    Success,
    InternalDatabaseError,
    RateLimited,
    VisitedTooFrequently,
    AlreadyClaimed,
    AuthInvalid,
    AuthTimeout,
    OtpRateLimited,
    IncorrectGameAccount,
    IncorrectGamePassword,
    AccountNotExists,
    VerificationCodeRateLimited,
    AccountMuted,
}

/// The numeric code of each outcome on the wire.
pub open spec fn return_code_value(c: ZenlessReturnCode) -> int {
    match c {
        ZenlessReturnCode::Success => 0,
        ZenlessReturnCode::InternalDatabaseError => -1,
        ZenlessReturnCode::RateLimited => 10101,
        ZenlessReturnCode::VisitedTooFrequently => -110,
        ZenlessReturnCode::AlreadyClaimed => -5003,
        ZenlessReturnCode::AuthInvalid => -100,
        ZenlessReturnCode::AuthTimeout => -101,
        ZenlessReturnCode::OtpRateLimited => -119,
        ZenlessReturnCode::IncorrectGameAccount => -216,
        ZenlessReturnCode::IncorrectGamePassword => -202,
        ZenlessReturnCode::AccountNotExists => -3203,
        ZenlessReturnCode::VerificationCodeRateLimited => -3206,
        ZenlessReturnCode::AccountMuted => 2010,
    }
}

impl ZenlessReturnCode {
    /// The numeric code of this outcome.
    pub fn code(&self) -> (r: i16)
        ensures
            r as int == return_code_value(*self),
    {
        match self {
            ZenlessReturnCode::Success => 0,
            ZenlessReturnCode::InternalDatabaseError => -1,
            ZenlessReturnCode::RateLimited => 10101,
            ZenlessReturnCode::VisitedTooFrequently => -110,
            ZenlessReturnCode::AlreadyClaimed => -5003,
            ZenlessReturnCode::AuthInvalid => -100,
            ZenlessReturnCode::AuthTimeout => -101,
            ZenlessReturnCode::OtpRateLimited => -119,
            ZenlessReturnCode::IncorrectGameAccount => -216,
            ZenlessReturnCode::IncorrectGamePassword => -202,
            ZenlessReturnCode::AccountNotExists => -3203,
            ZenlessReturnCode::VerificationCodeRateLimited => -3206,
            ZenlessReturnCode::AccountMuted => 2010,
        }
    }

    /// The outcome with the given numeric code, if the code is a known one.
    pub fn from_code(v: i16) -> (r: Option<ZenlessReturnCode>)
        ensures
            match r {
                Some(c) => return_code_value(c) == v as int,
                None => forall|c: ZenlessReturnCode| return_code_value(c) != v as int,
            },
    {
        match v {
            0 => Some(ZenlessReturnCode::Success),
            -1 => Some(ZenlessReturnCode::InternalDatabaseError),
            10101 => Some(ZenlessReturnCode::RateLimited),
            -110 => Some(ZenlessReturnCode::VisitedTooFrequently),
            -5003 => Some(ZenlessReturnCode::AlreadyClaimed),
            -100 => Some(ZenlessReturnCode::AuthInvalid),
            -101 => Some(ZenlessReturnCode::AuthTimeout),
            -119 => Some(ZenlessReturnCode::OtpRateLimited),
            -216 => Some(ZenlessReturnCode::IncorrectGameAccount),
            -202 => Some(ZenlessReturnCode::IncorrectGamePassword),
            -3203 => Some(ZenlessReturnCode::AccountNotExists),
            -3206 => Some(ZenlessReturnCode::VerificationCodeRateLimited),
            2010 => Some(ZenlessReturnCode::AccountMuted),
            _ => None,
        }
    }
}

/// The envelope in which the reward portal wraps every answer.
#[derive(Debug, Clone)]
pub struct HoyolabResponse<T> {
    pub data: Option<T>,
    pub message: String,
    pub retcode: ZenlessReturnCode,
}

impl<T> HoyolabResponse<T> {
    /// The portal reported success.
    pub open spec fn succeeded(&self) -> bool {
        self.retcode == ZenlessReturnCode::Success
    }

    /// Tells whether the portal reported success.
    pub fn is_success(&self) -> (r: bool)
        ensures
            r == self.succeeded(),
    {
        self.retcode == ZenlessReturnCode::Success
    }

    /// Tells whether the portal reported any other outcome.
    pub fn is_error(&self) -> (r: bool)
        ensures
            r == !self.succeeded(),
    {
        self.retcode != ZenlessReturnCode::Success
    }

    /// The payload, present only on a successful answer that carries one.
    pub fn data(&self) -> (r: Option<&T>)
        ensures
            r == (if self.succeeded() {
                match self.data {
                    Some(d) => Some(&d),
                    None => None,
                }
            } else {
                None
            }),
    {
        if self.is_success() {
            self.data.as_ref()
        } else {
            None
        }
    }

    /// The payload of a successful answer, or the reason there is none: the
    /// portal's message on failure, a fixed text when a success carries no
    /// payload.
    pub fn into_result(self) -> (r: Result<T, String>)
        ensures
            self.succeeded() && self.data is Some ==> r == Ok::<T, String>(self.data->Some_0),
            self.succeeded() && self.data is None ==> r is Err && r->Err_0@
                == "Success response missing data"@,
            !self.succeeded() ==> r is Err && r->Err_0@ == self.message@,
    {
        if self.is_success() {
            match self.data {
                Some(d) => Ok(d),
                None => Err(String::from_str("Success response missing data")),
            }
        } else {
            Err(self.message)
        }
    }
}

/// One day's reward in the monthly calendar.
#[derive(Debug, Clone)]
pub struct DailyReward {
    pub name: String,
    pub amount: i32,
    pub icon: String,
}

/// The account's check-in standing for the current month.
#[derive(Debug, Clone)]
pub struct DailyRewardStatus {
    pub total_days_signed_in: i32,
    pub today: String,
    pub is_signed_in: bool,
    pub is_sub: bool,
    pub region: String,
    pub sign_cnt_missed: i32,
    pub short_sign_day: i32,
    pub send_first: bool,
}

/// The captcha challenge that a claim may come back with.
#[derive(Debug, Clone)]
pub struct GeetestResponse {
    pub code: String,
    pub risk_code: i64,
    pub gt: String,
    pub challenge: String,
    pub success: i64,
    pub is_risk: bool,
}

} // verus!
