//! Result codes of the account API.

use vstd::prelude::*;

verus! {

/// The known result codes of the account operations.
#[derive(Copy, Clone, Debug, PartialEq, Eq, Structural)]
pub enum Status {
    Success,
    InvalidPhoneNumber,
    SuccessWithAccount,
    SuccessWithDeviceChanged,
    MismatchPassword,
    ExceedLoginLimit,
    MismatchPhoneNumber,
    ExceedPhoneNumberCheckLimit,
    NotExistAccount,
    NeedCheckPhoneNumber,
    NeedCheckQuiz,
    DormantAccount,
    RestrictedAccount,
    LoginFailed,
    NotVerifiedEmail,
    MobileUnregistered,
    UnknownPhoneNumber,
    SuccessSameUser,
    SuccessSameUserByMigration,
    TooManyRequestADay,
    TooManyRequestAtATime,
    MismatchPasscode,
    ExceedDailyRequestLimit,
    ExceedDailyRequestLimitVoiceCall,
    ExceedDailyRequestLimitWithoutToken,
    DeviceNotRegistered,
    AnotherLogon,
    DeviceRegisterFailed,
    InvalidDeviceRegister,
    InvalidPasscode,
    PasscodeRequestFailed,
    NeedTermsAgree,
    DeniedDeviceModel,
    ResetStep,
    NeedProtectorAgree,
    AccountRestricted,
    InvalidStageError,
    UpgradeRequired,
    VoiceCallOnly,
    AccessibilityArsOnly,
    MigrationFailure,
    InvalidToken,
}

impl Status {
    /// The numeric code of the status on the wire.
    pub open spec fn spec_code(&self) -> int {
        match self {
            Status::Success => 0,
            Status::InvalidPhoneNumber => 1,
            Status::SuccessWithAccount => 10,
            Status::SuccessWithDeviceChanged => 11,
            Status::MismatchPassword => 12,
            Status::ExceedLoginLimit => 13,
            Status::MismatchPhoneNumber => 14,
            Status::ExceedPhoneNumberCheckLimit => 15,
            Status::NotExistAccount => 16,
            Status::NeedCheckPhoneNumber => 20,
            Status::NeedCheckQuiz => 25,
            Status::DormantAccount => 26,
            Status::RestrictedAccount => 27,
            Status::LoginFailed => 30,
            Status::NotVerifiedEmail => 31,
            Status::MobileUnregistered => 32,
            Status::UnknownPhoneNumber => 99,
            Status::SuccessSameUser => 100,
            Status::SuccessSameUserByMigration => 101,
            Status::TooManyRequestADay => -20,
            Status::TooManyRequestAtATime => -30,
            Status::MismatchPasscode => -31,
            Status::ExceedDailyRequestLimit => -32,
            Status::ExceedDailyRequestLimitVoiceCall => -33,
            Status::ExceedDailyRequestLimitWithoutToken => -34,
            Status::DeviceNotRegistered => -100,
            Status::AnotherLogon => -101,
            Status::DeviceRegisterFailed => -102,
            Status::InvalidDeviceRegister => -110,
            Status::InvalidPasscode => -111,
            Status::PasscodeRequestFailed => -112,
            Status::NeedTermsAgree => -126,
            Status::DeniedDeviceModel => -132,
            Status::ResetStep => -940,
            Status::NeedProtectorAgree => -991,
            Status::AccountRestricted => -997,
            Status::InvalidStageError => -998,
            Status::UpgradeRequired => -999,
            Status::VoiceCallOnly => -10002,
            Status::AccessibilityArsOnly => -10003,
            Status::MigrationFailure => -100001,
            Status::InvalidToken => -100002,
        }
    }

    /// The numeric code of the status on the wire.
    pub fn code(&self) -> (r: i32)
        ensures
            r == self.spec_code(),
    {
        match self {
            Status::Success => 0,
            Status::InvalidPhoneNumber => 1,
            Status::SuccessWithAccount => 10,
            Status::SuccessWithDeviceChanged => 11,
            Status::MismatchPassword => 12,
            Status::ExceedLoginLimit => 13,
            Status::MismatchPhoneNumber => 14,
            Status::ExceedPhoneNumberCheckLimit => 15,
            Status::NotExistAccount => 16,
            Status::NeedCheckPhoneNumber => 20,
            Status::NeedCheckQuiz => 25,
            Status::DormantAccount => 26,
            Status::RestrictedAccount => 27,
            Status::LoginFailed => 30,
            Status::NotVerifiedEmail => 31,
            Status::MobileUnregistered => 32,
            Status::UnknownPhoneNumber => 99,
            Status::SuccessSameUser => 100,
            Status::SuccessSameUserByMigration => 101,
            Status::TooManyRequestADay => -20,
            Status::TooManyRequestAtATime => -30,
            Status::MismatchPasscode => -31,
            Status::ExceedDailyRequestLimit => -32,
            Status::ExceedDailyRequestLimitVoiceCall => -33,
            Status::ExceedDailyRequestLimitWithoutToken => -34,
            Status::DeviceNotRegistered => -100,
            Status::AnotherLogon => -101,
            Status::DeviceRegisterFailed => -102,
            Status::InvalidDeviceRegister => -110,
            Status::InvalidPasscode => -111,
            Status::PasscodeRequestFailed => -112,
            Status::NeedTermsAgree => -126,
            Status::DeniedDeviceModel => -132,
            Status::ResetStep => -940,
            Status::NeedProtectorAgree => -991,
            Status::AccountRestricted => -997,
            Status::InvalidStageError => -998,
            Status::UpgradeRequired => -999,
            Status::VoiceCallOnly => -10002,
            Status::AccessibilityArsOnly => -10003,
            Status::MigrationFailure => -100001,
            Status::InvalidToken => -100002,
        }
    }
}

/// The status that a numeric code stands for, if it is known.
pub open spec fn spec_status_of(code: int) -> Option<Status> {
    if code == 0 {
        Some(Status::Success)
    }     else if code == 1 {
        Some(Status::InvalidPhoneNumber)
    }     else if code == 10 {
        Some(Status::SuccessWithAccount)
    }     else if code == 11 {
        Some(Status::SuccessWithDeviceChanged)
    }     else if code == 12 {
        Some(Status::MismatchPassword)
    }     else if code == 13 {
        Some(Status::ExceedLoginLimit)
    }     else if code == 14 {
        Some(Status::MismatchPhoneNumber)
    }     else if code == 15 {
        Some(Status::ExceedPhoneNumberCheckLimit)
    }     else if code == 16 {
        Some(Status::NotExistAccount)
    }     else if code == 20 {
        Some(Status::NeedCheckPhoneNumber)
    }     else if code == 25 {
        Some(Status::NeedCheckQuiz)
    }     else if code == 26 {
        Some(Status::DormantAccount)
    }     else if code == 27 {
        Some(Status::RestrictedAccount)
    }     else if code == 30 {
        Some(Status::LoginFailed)
    }     else if code == 31 {
        Some(Status::NotVerifiedEmail)
    }     else if code == 32 {
        Some(Status::MobileUnregistered)
    }     else if code == 99 {
        Some(Status::UnknownPhoneNumber)
    }     else if code == 100 {
        Some(Status::SuccessSameUser)
    }     else if code == 101 {
        Some(Status::SuccessSameUserByMigration)
    }     else if code == -20 {
        Some(Status::TooManyRequestADay)
    }     else if code == -30 {
        Some(Status::TooManyRequestAtATime)
    }     else if code == -31 {
        Some(Status::MismatchPasscode)
    }     else if code == -32 {
        Some(Status::ExceedDailyRequestLimit)
    }     else if code == -33 {
        Some(Status::ExceedDailyRequestLimitVoiceCall)
    }     else if code == -34 {
        Some(Status::ExceedDailyRequestLimitWithoutToken)
    }     else if code == -100 {
        Some(Status::DeviceNotRegistered)
    }     else if code == -101 {
        Some(Status::AnotherLogon)
    }     else if code == -102 {
        Some(Status::DeviceRegisterFailed)
    }     else if code == -110 {
        Some(Status::InvalidDeviceRegister)
    }     else if code == -111 {
        Some(Status::InvalidPasscode)
    }     else if code == -112 {
        Some(Status::PasscodeRequestFailed)
    }     else if code == -126 {
        Some(Status::NeedTermsAgree)
    }     else if code == -132 {
        Some(Status::DeniedDeviceModel)
    }     else if code == -940 {
        Some(Status::ResetStep)
    }     else if code == -991 {
        Some(Status::NeedProtectorAgree)
    }     else if code == -997 {
        Some(Status::AccountRestricted)
    }     else if code == -998 {
        Some(Status::InvalidStageError)
    }     else if code == -999 {
        Some(Status::UpgradeRequired)
    }     else if code == -10002 {
        Some(Status::VoiceCallOnly)
    }     else if code == -10003 {
        Some(Status::AccessibilityArsOnly)
    }     else if code == -100001 {
        Some(Status::MigrationFailure)
    }     else if code == -100002 {
        Some(Status::InvalidToken)
    } else {
        None
    }
}

impl Status {
    /// The status that a numeric code stands for; nothing for an unknown code.
    pub fn from_code(code: i64) -> (r: Option<Status>)
        ensures
            r == spec_status_of(code as int),
    {
        match code {
            0 => Some(Status::Success),
            1 => Some(Status::InvalidPhoneNumber),
            10 => Some(Status::SuccessWithAccount),
            11 => Some(Status::SuccessWithDeviceChanged),
            12 => Some(Status::MismatchPassword),
            13 => Some(Status::ExceedLoginLimit),
            14 => Some(Status::MismatchPhoneNumber),
            15 => Some(Status::ExceedPhoneNumberCheckLimit),
            16 => Some(Status::NotExistAccount),
            20 => Some(Status::NeedCheckPhoneNumber),
            25 => Some(Status::NeedCheckQuiz),
            26 => Some(Status::DormantAccount),
            27 => Some(Status::RestrictedAccount),
            30 => Some(Status::LoginFailed),
            31 => Some(Status::NotVerifiedEmail),
            32 => Some(Status::MobileUnregistered),
            99 => Some(Status::UnknownPhoneNumber),
            100 => Some(Status::SuccessSameUser),
            101 => Some(Status::SuccessSameUserByMigration),
            -20 => Some(Status::TooManyRequestADay),
            -30 => Some(Status::TooManyRequestAtATime),
            -31 => Some(Status::MismatchPasscode),
            -32 => Some(Status::ExceedDailyRequestLimit),
            -33 => Some(Status::ExceedDailyRequestLimitVoiceCall),
            -34 => Some(Status::ExceedDailyRequestLimitWithoutToken),
            -100 => Some(Status::DeviceNotRegistered),
            -101 => Some(Status::AnotherLogon),
            -102 => Some(Status::DeviceRegisterFailed),
            -110 => Some(Status::InvalidDeviceRegister),
            -111 => Some(Status::InvalidPasscode),
            -112 => Some(Status::PasscodeRequestFailed),
            -126 => Some(Status::NeedTermsAgree),
            -132 => Some(Status::DeniedDeviceModel),
            -940 => Some(Status::ResetStep),
            -991 => Some(Status::NeedProtectorAgree),
            -997 => Some(Status::AccountRestricted),
            -998 => Some(Status::InvalidStageError),
            -999 => Some(Status::UpgradeRequired),
            -10002 => Some(Status::VoiceCallOnly),
            -10003 => Some(Status::AccessibilityArsOnly),
            -100001 => Some(Status::MigrationFailure),
            -100002 => Some(Status::InvalidToken),
            _ => None,
        }
    }
}

/// Reading back the code of a status gives that status.
pub proof fn status_code_round_trip(s: Status)
    ensures
        spec_status_of(s.spec_code()) == Some(s),
{
}

/// A code that is known stands for the status that writes it.
pub proof fn status_of_code_is_exact(code: int)
    ensures
        spec_status_of(code) matches Some(s) ==> s.spec_code() == code,
{
}

} // verus!
