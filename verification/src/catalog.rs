//! What the status codes and the error codes of the platform mean, in words.

use crate::dword::{
    known_error, known_status, ServiceError, ServiceStatus, ERROR_ACCESS_DENIED,
    ERROR_CIRCULAR_DEPENDENCY, ERROR_DUPLICATE_SERVICE_NAME, ERROR_INVALID_HANDLE,
    ERROR_INVALID_NAME, ERROR_INVALID_PARAMETER, ERROR_INVALID_SERVICE_ACCOUNT,
    ERROR_PATH_NOT_FOUND, ERROR_SERVICE_ALREADY_RUNNING, ERROR_SERVICE_DATABASE_LOCKED,
    ERROR_SERVICE_DEPENDENCY_DELETED, ERROR_SERVICE_DEPENDENCY_FAIL, ERROR_SERVICE_DISABLED,
    ERROR_SERVICE_EXISTS, ERROR_SERVICE_LOGON_FAILED, ERROR_SERVICE_MARKED_FOR_DELETE,
    ERROR_SERVICE_NO_THREAD, ERROR_SERVICE_REQUEST_TIMEOUT, SERVICE_CONTINUE_PENDING,
    SERVICE_PAUSED, SERVICE_PAUSE_PENDING, SERVICE_RUNNING, SERVICE_START_PENDING, SERVICE_STOPPED,
    SERVICE_STOP_PENDING,
};
use std::collections::HashMap;
use vstd::prelude::*;
use vstd::string::StringExecFns;

verus! {

/// The description of a named status code; nothing for any other code.
pub open spec fn status_text(code: u32) -> Seq<char> {
    if code == SERVICE_CONTINUE_PENDING {
        "服务即将继续。"@
    } else if code == SERVICE_PAUSE_PENDING {
        "服务即将暂停。"@
    } else if code == SERVICE_PAUSED {
        "服务已暂停。"@
    } else if code == SERVICE_RUNNING {
        "服务正在运行。"@
    } else if code == SERVICE_START_PENDING {
        "服务正在启动。"@
    } else if code == SERVICE_STOP_PENDING {
        "服务正在停止。"@
    } else if code == SERVICE_STOPPED {
        "服务未运行。"@
    } else {
        Seq::empty()
    }
}

/// The description of a named error code; nothing for any other code.
pub open spec fn error_text(code: u32) -> Seq<char> {
    if code == ERROR_ACCESS_DENIED {
        "SCM 数据库的句柄没有 SC_MANAGER_CREATE_SERVICE 访问权限。"@
    } else if code == ERROR_CIRCULAR_DEPENDENCY {
        "指定了循环服务依赖项。"@
    } else if code == ERROR_DUPLICATE_SERVICE_NAME {
        "显示名称已作为服务名称或其他显示名称存在于服务控制管理器数据库中。"@
    } else if code == ERROR_INVALID_HANDLE {
        "指定服务控制管理器数据库的句柄无效。"@
    } else if code == ERROR_INVALID_NAME {
        "指定的服务名称无效。"@
    } else if code == ERROR_INVALID_PARAMETER {
        "指定的参数无效。"@
    } else if code == ERROR_INVALID_SERVICE_ACCOUNT {
        "ServiceStartName 参数中指定的用户帐户名不存在。"@
    } else if code == ERROR_SERVICE_EXISTS {
        "此数据库中已存在指定的服务。"@
    } else if code == ERROR_SERVICE_MARKED_FOR_DELETE {
        "指定的服务已存在于此数据库中，并且已标记为要删除。"@
    } else if code == ERROR_PATH_NOT_FOUND {
        "找不到服务二进制文件。"@
    } else if code == ERROR_SERVICE_ALREADY_RUNNING {
        "服务的实例已在运行。"@
    } else if code == ERROR_SERVICE_DATABASE_LOCKED {
        "数据库已锁定。"@
    } else if code == ERROR_SERVICE_DEPENDENCY_DELETED {
        "该服务依赖于不存在或已标记为删除的服务。"@
    } else if code == ERROR_SERVICE_DEPENDENCY_FAIL {
        "该服务依赖于另一个无法启动的服务。"@
    } else if code == ERROR_SERVICE_DISABLED {
        "服务已被禁用。"@
    } else if code == ERROR_SERVICE_LOGON_FAILED {
        "由于登录失败而无法启动服务。 如果将服务配置为在没有“作为服务登录”权限的帐户下运行，则会发生此错误。"@
    } else if code == ERROR_SERVICE_NO_THREAD {
        "无法为服务创建线程。"@
    } else if code == ERROR_SERVICE_REQUEST_TIMEOUT {
        "服务的进程已启动，但它未调用 StartServiceCtrlDispatcher，或者调用 StartServiceCtrlDispatcher 的线程可能在控制处理程序函数中被阻止。"@
    } else {
        Seq::empty()
    }
}

/// The character of one decimal digit.
pub open spec fn digit(d: nat) -> char
    recommends
        d < 10,
{
    (0x30 + d) as char
}

/// A number in decimal digits, without leading zeros.
pub open spec fn decimal(n: nat) -> Seq<char>
    decreases n,
{
    if n < 10 {
        seq![digit(n)]
    } else {
        decimal(n / 10).push(digit(n % 10))
    }
}

/// The number that decimal digits stand for.
pub open spec fn decimal_value(digits: Seq<char>) -> nat
    decreases digits.len(),
{
    if digits.len() == 0 {
        0
    } else {
        (10 * decimal_value(digits.drop_last()) + (digits.last() as nat - 0x30)) as nat
    }
}

/// What is said of a status code: its number and its description where the
/// code has a name, and where it has none, its number and where to look.
pub open spec fn describe_status(code: u32) -> Seq<char> {
    if known_status(code) {
        "服务状态("@ + decimal(code as nat) + "):"@ + status_text(code)
    } else {
        "未知服务状态("@ + decimal(code as nat) + "),请查看官方文档"@
    }
}

/// What is said of an error code: its number and its description where the
/// code has a name, and where it has none, its number and where to look.
pub open spec fn describe_error(code: u32) -> Seq<char> {
    if known_error(code) {
        "错误("@ + decimal(code as nat) + "):"@ + error_text(code)
    } else {
        "未知错误("@ + decimal(code as nat) + "),请查看官方文档"@
    }
}

/// Appends a number in decimal digits.
fn push_decimal(text: &mut String, n: u32)
    ensures
        final(text)@ == old(text)@ + decimal(n as nat),
    decreases n,
{
    if n >= 10 {
        push_decimal(text, n / 10);
    }
    let d: u8 = (n % 10) as u8;
    let c: char = (0x30u8 + d) as char;
    text.push(c);
    proof {
        assert(c == digit((n % 10) as nat));
        assert(text@ =~= old(text)@ + decimal(n as nat));
    }
}

/// The descriptions of the status codes and of the error codes that have a
/// name. It is built once and only read afterwards.
pub struct DiagnosticCatalog {
    statuses: HashMap<u32, &'static str>,
    errors: HashMap<u32, &'static str>,
}

impl DiagnosticCatalog {
    /// Whether the catalog holds the description of every named status code
    /// and of every named error code, and of no other code. Every catalog
    /// does.
    #[verifier::type_invariant]
    pub closed spec fn complete(self) -> bool {
        &&& forall|code: u32| self.statuses@.contains_key(code) <==> known_status(code)
        &&& forall|code: u32|
            known_status(code) ==> (#[trigger] self.statuses@[code])@ == status_text(code)
        &&& forall|code: u32| self.errors@.contains_key(code) <==> known_error(code)
        &&& forall|code: u32|
            known_error(code) ==> (#[trigger] self.errors@[code])@ == error_text(code)
    }

    /// The catalog, with the description of every named status code and of
    /// every named error code.
    pub fn new() -> (catalog: DiagnosticCatalog)
        ensures
            catalog.complete(),
    {
        let mut statuses: HashMap<u32, &'static str> = HashMap::new();
        statuses.insert(SERVICE_CONTINUE_PENDING, "服务即将继续。");
        statuses.insert(SERVICE_PAUSE_PENDING, "服务即将暂停。");
        statuses.insert(SERVICE_PAUSED, "服务已暂停。");
        statuses.insert(SERVICE_RUNNING, "服务正在运行。");
        statuses.insert(SERVICE_START_PENDING, "服务正在启动。");
        statuses.insert(SERVICE_STOP_PENDING, "服务正在停止。");
        statuses.insert(SERVICE_STOPPED, "服务未运行。");
        let mut errors: HashMap<u32, &'static str> = HashMap::new();
        errors.insert(ERROR_ACCESS_DENIED, "SCM 数据库的句柄没有 SC_MANAGER_CREATE_SERVICE 访问权限。");
        errors.insert(ERROR_CIRCULAR_DEPENDENCY, "指定了循环服务依赖项。");
        errors.insert(ERROR_DUPLICATE_SERVICE_NAME, "显示名称已作为服务名称或其他显示名称存在于服务控制管理器数据库中。");
        errors.insert(ERROR_INVALID_HANDLE, "指定服务控制管理器数据库的句柄无效。");
        errors.insert(ERROR_INVALID_NAME, "指定的服务名称无效。");
        errors.insert(ERROR_INVALID_PARAMETER, "指定的参数无效。");
        errors.insert(ERROR_INVALID_SERVICE_ACCOUNT, "ServiceStartName 参数中指定的用户帐户名不存在。");
        errors.insert(ERROR_SERVICE_EXISTS, "此数据库中已存在指定的服务。");
        errors.insert(ERROR_SERVICE_MARKED_FOR_DELETE, "指定的服务已存在于此数据库中，并且已标记为要删除。");
        errors.insert(ERROR_PATH_NOT_FOUND, "找不到服务二进制文件。");
        errors.insert(ERROR_SERVICE_ALREADY_RUNNING, "服务的实例已在运行。");
        errors.insert(ERROR_SERVICE_DATABASE_LOCKED, "数据库已锁定。");
        errors.insert(ERROR_SERVICE_DEPENDENCY_DELETED, "该服务依赖于不存在或已标记为删除的服务。");
        errors.insert(ERROR_SERVICE_DEPENDENCY_FAIL, "该服务依赖于另一个无法启动的服务。");
        errors.insert(ERROR_SERVICE_DISABLED, "服务已被禁用。");
        errors.insert(ERROR_SERVICE_LOGON_FAILED, "由于登录失败而无法启动服务。 如果将服务配置为在没有“作为服务登录”权限的帐户下运行，则会发生此错误。");
        errors.insert(ERROR_SERVICE_NO_THREAD, "无法为服务创建线程。");
        errors.insert(ERROR_SERVICE_REQUEST_TIMEOUT, "服务的进程已启动，但它未调用 StartServiceCtrlDispatcher，或者调用 StartServiceCtrlDispatcher 的线程可能在控制处理程序函数中被阻止。");
        DiagnosticCatalog { statuses, errors }
    }

    /// What is said of a status: never nothing, whatever the code.
    pub fn describe_status(&self, status: ServiceStatus) -> (text: String)
        ensures
            text@ == describe_status(status.code()),
    {
        proof {
            use_type_invariant(self);
        }
        let code: u32 = status.code();
        match self.statuses.get(&code) {
            Some(description) => {
                let mut text = String::from_str("服务状态(");
                push_decimal(&mut text, code);
                text.append("):");
                text.append(description);
                text
            },
            None => {
                let mut text = String::from_str("未知服务状态(");
                push_decimal(&mut text, code);
                text.append("),请查看官方文档");
                text
            },
        }
    }

    /// What is said of an error: never nothing, whatever the code.
    pub fn describe_error(&self, error: ServiceError) -> (text: String)
        ensures
            text@ == describe_error(error.code()),
    {
        proof {
            use_type_invariant(self);
        }
        let code: u32 = error.code();
        match self.errors.get(&code) {
            Some(description) => {
                let mut text = String::from_str("错误(");
                push_decimal(&mut text, code);
                text.append("):");
                text.append(description);
                text
            },
            None => {
                let mut text = String::from_str("未知错误(");
                push_decimal(&mut text, code);
                text.append("),请查看官方文档");
                text
            },
        }
    }

}

/// Whether `piece` stands somewhere in `text`, unbroken.
pub open spec fn holds(text: Seq<char>, piece: Seq<char>) -> bool {
    exists|at: int|
        0 <= at && at + piece.len() <= text.len() && #[trigger] text.subrange(
            at,
            at + piece.len(),
        ) == piece
}

/// Decimal digits stand for the number that they were written from.
pub proof fn lemma_decimal_value(n: nat)
    ensures
        decimal_value(decimal(n)) == n,
        decimal(n).len() > 0,
    decreases n,
{
    if n < 10 {
        let digits = decimal(n);
        assert(digits.drop_last() =~= Seq::<char>::empty());
        assert(decimal_value(digits.drop_last()) == 0);
        assert(digits.last() == digit(n));
    } else {
        lemma_decimal_value(n / 10);
        let digits = decimal(n);
        assert(digits.drop_last() =~= decimal(n / 10));
        assert(digits.last() == digit(n % 10));
    }
}

proof fn lemma_holds_middle(before: Seq<char>, piece: Seq<char>, after: Seq<char>)
    ensures
        holds(before + piece + after, piece),
{
    let text = before + piece + after;
    let at = before.len() as int;
    assert(text.subrange(at, at + piece.len()) =~= piece);
}

proof fn lemma_holds_end(before: Seq<char>, piece: Seq<char>)
    ensures
        holds(before + piece, piece),
{
    let text = before + piece;
    let at = before.len() as int;
    assert(text.subrange(at, at + piece.len()) =~= piece);
}

/// Every status code is described. The description of a code with a name
/// holds its number and ends in the description of that name; the description
/// of any other code holds its number, in decimal digits that stand for it.
pub proof fn lemma_status_described(code: u32)
    ensures
        holds(describe_status(code), decimal(code as nat)),
        decimal_value(decimal(code as nat)) == code,
        known_status(code) ==> describe_status(code) == "服务状态("@ + decimal(code as nat)
            + "):"@ + status_text(code),
        known_status(code) ==> holds(describe_status(code), status_text(code)),
        !known_status(code) ==> describe_status(code) == "未知服务状态("@ + decimal(
            code as nat,
        ) + "),请查看官方文档"@,
{
    lemma_decimal_value(code as nat);
    if known_status(code) {
        lemma_holds_middle("服务状态("@, decimal(code as nat), "):"@ + status_text(code));
        assert("服务状态("@ + decimal(code as nat) + ("):"@ + status_text(code))
            =~= describe_status(code));
        lemma_holds_end("服务状态("@ + decimal(code as nat) + "):"@, status_text(code));
    } else {
        lemma_holds_middle("未知服务状态("@, decimal(code as nat), "),请查看官方文档"@);
    }
}

/// Every error code is described. The description of a code with a name
/// holds its number and ends in the description of that name; the description
/// of any other code holds its number, in decimal digits that stand for it.
pub proof fn lemma_error_described(code: u32)
    ensures
        holds(describe_error(code), decimal(code as nat)),
        decimal_value(decimal(code as nat)) == code,
        known_error(code) ==> describe_error(code) == "错误("@ + decimal(code as nat) + "):"@
            + error_text(code),
        known_error(code) ==> holds(describe_error(code), error_text(code)),
        !known_error(code) ==> describe_error(code) == "未知错误("@ + decimal(code as nat)
            + "),请查看官方文档"@,
{
    lemma_decimal_value(code as nat);
    if known_error(code) {
        lemma_holds_middle("错误("@, decimal(code as nat), "):"@ + error_text(code));
        assert("错误("@ + decimal(code as nat) + ("):"@ + error_text(code)) =~= describe_error(
            code,
        ));
        lemma_holds_end("错误("@ + decimal(code as nat) + "):"@, error_text(code));
    } else {
        lemma_holds_middle("未知错误("@, decimal(code as nat), "),请查看官方文档"@);
    }
}

} // verus!
