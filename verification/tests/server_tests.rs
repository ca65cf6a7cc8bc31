use rusty_server::{format_calculation, CalcError, Op, RustyServer};

fn calc_text(server: &mut RustyServer, operation: &str, a: f64, b: f64) -> Result<String, CalcError> {
    match server.calculator(operation, b == 0.0) {
        Ok(op) => {
            let result = match op {
                Op::Add => a + b,
                Op::Subtract => a - b,
                Op::Multiply => a * b,
                Op::Divide => a / b,
            };
            Ok(format_calculation(
                &format!("{}", a),
                operation,
                &format!("{}", b),
                &format!("{}", result),
            ))
        }
        Err(e) => Err(e),
    }
}

#[test]
fn echo_simple() {
    let mut s = RustyServer::new();
    assert_eq!(s.echo("hi"), "Echo: hi");
}

#[test]
fn echo_empty_message() {
    let mut s = RustyServer::new();
    assert_eq!(s.echo(""), "Echo: ");
}

#[test]
fn echo_message_holding_the_delimiter() {
    let mut s = RustyServer::new();
    assert_eq!(s.echo("Echo: x"), "Echo: Echo: x");
}

#[test]
fn calculator_addition_scenario() {
    let mut s = RustyServer::new();
    assert_eq!(calc_text(&mut s, "+", 2.0, 3.0), Ok(String::from("2 + 3 = 5")));
}

#[test]
fn calculator_subtraction() {
    let mut s = RustyServer::new();
    assert_eq!(calc_text(&mut s, "subtract", 7.0, 9.0), Ok(String::from("7 subtract 9 = -2")));
}

#[test]
fn calculator_multiplication() {
    let mut s = RustyServer::new();
    assert_eq!(calc_text(&mut s, "Multiply", 4.0, 2.5), Ok(String::from("4 Multiply 2.5 = 10")));
}

#[test]
fn calculator_division_fractional() {
    let mut s = RustyServer::new();
    assert_eq!(calc_text(&mut s, "/", 10.0, 4.0), Ok(String::from("10 / 4 = 2.5")));
}

#[test]
fn calculator_echoes_the_literal_operation_text() {
    let mut s = RustyServer::new();
    assert_eq!(calc_text(&mut s, "ADDITION", 1.0, 1.0), Ok(String::from("1 ADDITION 1 = 2")));
}

#[test]
fn calculator_divide_by_zero_fails() {
    let mut s = RustyServer::new();
    let r = calc_text(&mut s, "divide", 10.0, 0.0);
    assert_eq!(r, Err(CalcError::DivisionByZero));
    assert_eq!(
        CalcError::DivisionByZero.message(),
        "Division by zero is not allowed"
    );
}

#[test]
fn calculator_zero_divided_by_zero_fails() {
    let mut s = RustyServer::new();
    assert_eq!(calc_text(&mut s, "division", 0.0, 0.0), Err(CalcError::DivisionByZero));
}

#[test]
fn calculator_unknown_operation_fails() {
    let mut s = RustyServer::new();
    let r = calc_text(&mut s, "mod", 5.0, 2.0);
    assert_eq!(r, Err(CalcError::UnknownOperation));
    assert_eq!(
        CalcError::UnknownOperation.message(),
        "Unknown operation. Supported operations: add, subtract, multiply, divide"
    );
}

#[test]
fn calculator_unknown_operation_ignores_operands() {
    let mut s = RustyServer::new();
    assert_eq!(calc_text(&mut s, "power", 0.0, 0.0), Err(CalcError::UnknownOperation));
    assert_eq!(calc_text(&mut s, "", 1.0, 2.0), Err(CalcError::UnknownOperation));
}

#[test]
fn counter_counts_echo_and_calculator_but_not_stats() {
    let mut s = RustyServer::new();
    assert_eq!(s.request_count(), 0);
    s.echo("one");
    assert_eq!(s.request_count(), 1);
    let _ = s.calculator("add", false);
    assert_eq!(s.request_count(), 2);
    let first = s.get_stats();
    let second = s.get_stats();
    assert_eq!(first, second);
    assert_eq!(s.request_count(), 2);
}

#[test]
fn counter_counts_failed_calculator_calls() {
    let mut s = RustyServer::new();
    let _ = s.calculator("divide", true);
    let _ = s.calculator("nope", false);
    assert_eq!(s.request_count(), 2);
}

#[test]
fn stats_text_after_two_requests() {
    let mut s = RustyServer::new();
    s.echo("hi");
    let _ = calc_text(&mut s, "+", 2.0, 3.0);
    assert_eq!(
        s.get_stats(),
        "Server Statistics:\n- Total requests processed: 2\n- Server version: 0.1.0\n- Uptime: running"
    );
}

#[test]
fn stats_text_of_a_fresh_server() {
    let s = RustyServer::new();
    assert_eq!(
        s.get_stats(),
        "Server Statistics:\n- Total requests processed: 0\n- Server version: 0.1.0\n- Uptime: running"
    );
}

#[test]
fn handshake_reports_the_static_capabilities() {
    let s = RustyServer::new();
    let info = s.get_info();
    assert_eq!(info.protocol_version, "2024-11-05");
    assert!(info.tools_enabled);
    assert_eq!(info.name, "rusty-server");
    assert_eq!(info.version, "0.1.0");
    assert_eq!(
        info.instructions,
        "This is a minimal Rust MCP server for testing connectivity. It provides echo and calculator tools for basic operations."
    );
}

#[test]
fn initialize_replies_with_the_same_announcement() {
    let s = RustyServer::new();
    let a = s.initialize();
    let b = s.get_info();
    assert_eq!(a.protocol_version, b.protocol_version);
    assert_eq!(a.tools_enabled, b.tools_enabled);
    assert_eq!(a.name, b.name);
    assert_eq!(a.version, b.version);
    assert_eq!(a.instructions, b.instructions);
}
