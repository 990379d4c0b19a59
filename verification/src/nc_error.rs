use vstd::prelude::*;

use vstd::string::StringExecFns;

verus! {

/// Shared error vocabulary for every component of the framework.
///
/// Errors that stem from the operating system or the network (address
/// parsing, binding, accepting, reading, writing) carry no payload here:
/// the runtime that observed them logs the underlying cause before handing
/// the kind over.  Errors raised by the embedding application's capability
/// traits carry the opaque numeric code the application chose.
#[derive(Clone, Copy, Debug, PartialEq, Eq, Structural)]
pub enum NCError {
    /// The coordinator address could not be parsed.  Fatal at startup.
    IPAddrParse,
    /// Binding the listening socket failed.  Fatal at startup.
    TcpBind,
    /// Accepting one incoming connection failed; the accept loop goes on.
    SocketAccept,
    /// A read, write or connect failed; terminates the affected connection.
    IOError,
    /// A message could not be serialized.
    Serialize,
    /// A buffer did not hold one complete, well-formed frame.
    Deserialize,
    /// Bytes that should decode as a coordinator message did not.
    ServerMsgMismatch,
    /// Bytes that should decode as a worker message did not.
    NodeMsgMismatch,
    /// The shutdown-flag lock was poisoned; an invariant violation.
    QuitLock,
    /// The coordinator-state lock was poisoned; an invariant violation.
    ServerLock,
    /// `prepare_data_for_node` failed with this application error code.
    ServerPrepare(u32),
    /// `process_data_from_node` failed with this application error code.
    ServerProcess(u32),
    /// `process_data_from_server` failed with this application error code.
    NodeProcess(u32),
    /// Custom user defined error code.
    Custom(u32),
}

/// The decimal digit `d` as the view of its one-character text.
pub open spec fn spec_digit(d: nat) -> Seq<char> {
    if d == 0 {
        "0"@
    } else if d == 1 {
        "1"@
    } else if d == 2 {
        "2"@
    } else if d == 3 {
        "3"@
    } else if d == 4 {
        "4"@
    } else if d == 5 {
        "5"@
    } else if d == 6 {
        "6"@
    } else if d == 7 {
        "7"@
    } else if d == 8 {
        "8"@
    } else {
        "9"@
    }
}

/// The usual decimal text of `n`: most significant digit first, no sign, no
/// leading zero except for zero itself.
pub open spec fn spec_decimal(n: nat) -> Seq<char>
    decreases n,
{
    if n < 10 {
        spec_digit(n)
    } else {
        spec_decimal(n / 10) + spec_digit(n % 10)
    }
}

/// Append the single decimal digit `d` to `out`.
fn push_digit(out: &mut String, d: u32)
    requires
        d < 10,
    ensures
        final(out)@ == old(out)@ + spec_digit(d as nat),
{
    match d {
        0 => out.append("0"),
        1 => out.append("1"),
        2 => out.append("2"),
        3 => out.append("3"),
        4 => out.append("4"),
        5 => out.append("5"),
        6 => out.append("6"),
        7 => out.append("7"),
        8 => out.append("8"),
        _ => out.append("9"),
    }
}

/// Append the decimal text of `n` to `out`.
fn push_decimal(out: &mut String, n: u32)
    ensures
        final(out)@ == old(out)@ + spec_decimal(n as nat),
    decreases n,
{
    if n < 10 {
        push_digit(out, n);
    } else {
        proof {
            assert(n / 10 < n && n / 10 >= 1) by (nonlinear_arith)
                requires
                    n >= 10,
            ;
        }
        push_decimal(out, n / 10);
        push_digit(out, n % 10);
        proof {
            assert(out@ =~= old(out)@ + spec_decimal(n as nat));
        }
    }
}

impl NCError {
    /// True of the errors that abort coordinator startup; every other kind
    /// terminates at most the single affected connection.
    pub open spec fn spec_is_fatal(self) -> bool {
        self is IPAddrParse || self is TcpBind
    }

    /// Whether this error aborts coordinator startup.
    pub fn is_fatal(&self) -> (r: bool)
        ensures
            r == self.spec_is_fatal(),
    {
        match self {
            NCError::IPAddrParse => true,
            NCError::TcpBind => true,
            _ => false,
        }
    }

    /// The text before any cause or code, as a character sequence.
    pub open spec fn spec_description(self) -> Seq<char> {
        match self {
            NCError::IPAddrParse => "IP address parse error"@,
            NCError::TcpBind => "TCP bind error"@,
            NCError::SocketAccept => "Socket accept error"@,
            NCError::IOError => "IO error"@,
            NCError::Serialize => "Serialize bincode error"@,
            NCError::Deserialize => "Deserialize bincode error"@,
            NCError::ServerMsgMismatch => "Server message mismatch error"@,
            NCError::NodeMsgMismatch => "Node message mismatch error"@,
            NCError::QuitLock => "Quit lock error"@,
            NCError::ServerLock => "Server lock error"@,
            NCError::ServerPrepare(_) => "Server prepare data error"@,
            NCError::ServerProcess(_) => "Server process data error"@,
            NCError::NodeProcess(_) => "Node process data error"@,
            NCError::Custom(_) => "Custom user defined error"@,
        }
    }

    /// The description of the error kind, for operator-facing logs: the
    /// text before any cause or code.
    pub fn description(&self) -> (r: &'static str)
        ensures
            r@ == self.spec_description(),
    {
        match self {
            NCError::IPAddrParse => "IP address parse error",
            NCError::TcpBind => "TCP bind error",
            NCError::SocketAccept => "Socket accept error",
            NCError::IOError => "IO error",
            NCError::Serialize => "Serialize bincode error",
            NCError::Deserialize => "Deserialize bincode error",
            NCError::ServerMsgMismatch => "Server message mismatch error",
            NCError::NodeMsgMismatch => "Node message mismatch error",
            NCError::QuitLock => "Quit lock error",
            NCError::ServerLock => "Server lock error",
            NCError::ServerPrepare(_) => "Server prepare data error",
            NCError::ServerProcess(_) => "Server process data error",
            NCError::NodeProcess(_) => "Node process data error",
            NCError::Custom(_) => "Custom user defined error",
        }
    }

    /// The application error code this error carries, if it carries one.
    pub open spec fn spec_code(self) -> Option<u32> {
        match self {
            NCError::ServerPrepare(code) => Some(code),
            NCError::ServerProcess(code) => Some(code),
            NCError::NodeProcess(code) => Some(code),
            NCError::Custom(code) => Some(code),
            _ => None,
        }
    }

    /// The full operator-facing line, standing in for std's `Display`,
    /// which verified code cannot implement: the description, followed by
    /// the carried application error code in decimal where there is one.
    /// Causes that only the runtime holds (the OS error behind a bind or
    /// read failure) are appended by the runtime's own wrapper.
    pub fn message(&self) -> (r: String)
        ensures
            match self.spec_code() {
                Some(code) => r@ == self.spec_description() + ": "@ + spec_decimal(code as nat),
                None => r@ == self.spec_description(),
            },
    {
        let mut out = String::from_str(self.description());
        match self {
            NCError::ServerPrepare(code) => {
                out.append(": ");
                push_decimal(&mut out, *code);
            },
            NCError::ServerProcess(code) => {
                out.append(": ");
                push_decimal(&mut out, *code);
            },
            NCError::NodeProcess(code) => {
                out.append(": ");
                push_decimal(&mut out, *code);
            },
            NCError::Custom(code) => {
                out.append(": ");
                push_decimal(&mut out, *code);
            },
            _ => {},
        }
        out
    }
}

} // verus!
