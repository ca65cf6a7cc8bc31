//! The tool dispatcher: a server instance holding one piece of mutable
//! state, a monotonically increasing request counter, and the three tool
//! handlers (echo, calculator, statistics) plus the capability handshake.

use vstd::prelude::*;
use crate::ops::{Op, CalcError, op_of, parse_operation};
use crate::text::{dec_digits, lemma_dec_digits_injective, u64_to_string};

verus! {

/// The protocol version tag reported during the handshake.
pub open spec fn spec_protocol_version() -> Seq<char> {
    "2024-11-05"@
}

/// The implementation version string reported by the handshake and by the
/// statistics tool.
pub open spec fn spec_server_version() -> Seq<char> {
    "0.1.0"@
}

/// The static instructions text reported during the handshake.
pub open spec fn spec_instructions() -> Seq<char> {
    "This is a minimal Rust MCP server for testing connectivity. It provides echo and calculator tools for basic operations."@
}

/// The capability announcement: protocol version, a flag that tool support
/// is enabled, the implementation name/version pair, and instructions.
pub struct ServerInfo {
    pub protocol_version: String,
    pub tools_enabled: bool,
    pub name: String,
    pub version: String,
    pub instructions: String,
}

/// What every handshake response holds: fixed, deterministic field values.
pub open spec fn is_server_info(r: ServerInfo) -> bool {
    &&& r.protocol_version@ == spec_protocol_version()
    &&& r.tools_enabled
    &&& r.name@ == "rusty-server"@
    &&& r.version@ == spec_server_version()
    &&& r.instructions@ == spec_instructions()
}

/// The text that precedes the counter value in the statistics block.
pub open spec fn stats_prefix() -> Seq<char> {
    "Server Statistics:\n- Total requests processed: "@
}

/// The text that follows the counter value in the statistics block.
pub open spec fn stats_suffix() -> Seq<char> {
    "\n- Server version: "@ + spec_server_version() + "\n- Uptime: running"@
}

/// The whole statistics block for a given counter value.
pub open spec fn spec_stats_text(count: u64) -> Seq<char> {
    stats_prefix() + dec_digits(count as nat) + stats_suffix()
}

/// The server instance: its only mutable state is the request counter,
/// which starts at 0 and never decreases.
#[derive(Clone, Debug)]
pub struct RustyServer {
    request_count: u64,
}

impl RustyServer {
    /// The current value of the request counter.
    pub closed spec fn count(&self) -> u64 {
        self.request_count
    }

    /// A fresh server instance whose counter starts at zero.
    pub fn new() -> (r: Self)
        ensures
            r.count() == 0,
    {
        RustyServer { request_count: 0 }
    }

    /// Reads the counter without changing it.
    pub fn request_count(&self) -> (r: u64)
        ensures
            r == self.count(),
    {
        self.request_count
    }

    /// Adds one dispatched request to the counter.
    fn increment_request_count(&mut self)
        requires
            old(self).count() < u64::MAX,
        ensures
            final(self).count() == old(self).count() + 1,
    {
        self.request_count = self.request_count + 1;
    }

    /// The echo tool: returns `"Echo: "` followed by the message,
    /// byte for byte, and counts the request.
    pub fn echo(&mut self, message: &str) -> (r: String)
        requires
            old(self).count() < u64::MAX,
        ensures
            r@ == "Echo: "@ + message@,
            final(self).count() == old(self).count() + 1,
    {
        self.increment_request_count();
        let mut r = String::from_str("Echo: ");
        r.append(message);
        r
    }

    /// The calculator tool's dispatch: counts the request, then resolves
    /// the operation text and checks the one domain restriction. Exactly
    /// one of three outcomes holds:
    /// - the operation is recognized and, for division, the divisor is
    ///   nonzero: the resolved operation comes back for evaluation;
    /// - the operation is recognized as division and the divisor is zero:
    ///   the division-by-zero error;
    /// - the operation is outside the synonym set: the unknown-operation
    ///   error, whatever the operands are.
    /// The counter moves by one in every case, domain errors included.
    pub fn calculator(&mut self, operation: &str, divisor_is_zero: bool) -> (r: Result<Op, CalcError>)
        requires
            old(self).count() < u64::MAX,
        ensures
            final(self).count() == old(self).count() + 1,
            match r {
                Ok(op) => op_of(operation@) == Some(op) && !(op == Op::Divide && divisor_is_zero),
                Err(CalcError::DivisionByZero) => op_of(operation@) == Some(Op::Divide)
                    && divisor_is_zero,
                Err(CalcError::UnknownOperation) => op_of(operation@) is None,
            },
    {
        self.increment_request_count();
        match parse_operation(operation) {
            None => Err(CalcError::UnknownOperation),
            Some(op) => {
                if op == Op::Divide && divisor_is_zero {
                    Err(CalcError::DivisionByZero)
                } else {
                    Ok(op)
                }
            },
        }
    }

    /// The statistics tool: renders the counter value and the version into
    /// the fixed multi-line block. Reads the counter; never changes it.
    pub fn get_stats(&self) -> (r: String)
        ensures
            r@ == spec_stats_text(self.count()),
    {
        let mut s = String::from_str("Server Statistics:\n- Total requests processed: ");
        let digits = u64_to_string(self.request_count);
        s.append(digits.as_str());
        s.append("\n- Server version: ");
        s.append("0.1.0");
        s.append("\n- Uptime: running");
        proof {
            assert(s@ =~= spec_stats_text(self.count()));
        }
        s
    }

    /// The capability announcement, computed fresh on every call.
    pub fn get_info(&self) -> (r: ServerInfo)
        ensures
            is_server_info(r),
    {
        ServerInfo {
            protocol_version: String::from_str("2024-11-05"),
            tools_enabled: true,
            name: String::from_str("rusty-server"),
            version: String::from_str("0.1.0"),
            instructions: String::from_str(
                "This is a minimal Rust MCP server for testing connectivity. It provides echo and calculator tools for basic operations.",
            ),
        }
    }

    /// The handshake: replies to an initialization request with the same
    /// capability announcement that `get_info` computes.
    pub fn initialize(&self) -> (r: ServerInfo)
        ensures
            is_server_info(r),
    {
        self.get_info()
    }
}

/// What stands between a shared prefix and a shared suffix of two equal
/// texts is itself equal.
proof fn lemma_concat_middle_injective(p: Seq<char>, x: Seq<char>, y: Seq<char>, s: Seq<char>)
    requires
        p + x + s == p + y + s,
    ensures
        x == y,
{
    assert((p + x + s).len() == p.len() + x.len() + s.len());
    assert((p + y + s).len() == p.len() + y.len() + s.len());
    assert(x.len() == y.len());
    assert forall|i: int| 0 <= i < x.len() implies x[i] == y[i] by {
        assert((p + x + s)[p.len() + i] == x[i]);
        assert((p + y + s)[p.len() + i] == y[i]);
    }
    assert(x =~= y);
}

/// Law: the statistics block determines the counter — distinct counter
/// values render to distinct texts, so the count read through the
/// statistics tool is faithful.
pub proof fn lemma_stats_text_injective(c1: u64, c2: u64)
    requires
        c1 != c2,
    ensures
        spec_stats_text(c1) != spec_stats_text(c2),
{
    lemma_dec_digits_injective(c1 as nat, c2 as nat);
    if spec_stats_text(c1) == spec_stats_text(c2) {
        lemma_concat_middle_injective(
            stats_prefix(),
            dec_digits(c1 as nat),
            dec_digits(c2 as nat),
            stats_suffix(),
        );
    }
}

/// Joins the operand texts, the operation text as the caller wrote it, and
/// the rendered result into the calculator's success payload:
/// `"{a} {operation} {b} = {result}"`.
pub fn format_calculation(a_text: &str, operation: &str, b_text: &str, result_text: &str) -> (r:
    String)
    ensures
        r@ == a_text@ + " "@ + operation@ + " "@ + b_text@ + " = "@ + result_text@,
{
    let mut s = String::from_str(a_text);
    s.append(" ");
    s.append(operation);
    s.append(" ");
    s.append(b_text);
    s.append(" = ");
    s.append(result_text);
    s
}

} // verus!
