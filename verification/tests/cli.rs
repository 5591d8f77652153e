use simple_server::address::{IpAddress, SocketAddress};
use simple_server::cli::{Cli, Verbosity};

fn config(bind: IpAddress, port: u16) -> Cli {
    Cli { verbosity: Verbosity::Info, bind, port, open: false, data_dir: None }
}

#[test]
fn default_is_plain_http_on_localhost_3000() {
    let cli = Cli::default();
    assert_eq!(cli.bind, IpAddress::V4(127, 0, 0, 1));
    assert_eq!(cli.port, 3000);
    assert_eq!(cli.verbosity, Verbosity::Info);
    assert!(!cli.open);
    assert_eq!(cli.data_dir, None);
    assert!(!cli.uses_tls());
}

#[test]
fn localhost_is_127_0_0_1() {
    assert_eq!(IpAddress::localhost(), IpAddress::V4(127, 0, 0, 1));
}

#[test]
fn socket_address_new_keeps_both_parts() {
    let addr = SocketAddress::new(IpAddress::V4(10, 1, 2, 3), 8443);
    assert_eq!(addr.ip, IpAddress::V4(10, 1, 2, 3));
    assert_eq!(addr.port, 8443);
}

#[test]
fn addr_pairs_bind_with_port() {
    let cli = config(IpAddress::V4(192, 168, 1, 20), 8080);
    assert_eq!(
        cli.addr(),
        SocketAddress { ip: IpAddress::V4(192, 168, 1, 20), port: 8080 }
    );
}

#[test]
fn addr_of_default_is_localhost_3000() {
    assert_eq!(
        Cli::default().addr(),
        SocketAddress { ip: IpAddress::V4(127, 0, 0, 1), port: 3000 }
    );
}

#[test]
fn addr_keeps_port_zero() {
    let cli = config(IpAddress::V4(0, 0, 0, 0), 0);
    assert_eq!(cli.addr().port, 0);
    assert_eq!(cli.addr().ip, IpAddress::V4(0, 0, 0, 0));
}

#[test]
fn addr_keeps_highest_port() {
    let cli = config(IpAddress::V4(127, 0, 0, 1), 65535);
    assert_eq!(cli.addr().port, 65535);
}

#[test]
fn addr_with_ipv6() {
    let loopback = IpAddress::V6(0, 0, 0, 0, 0, 0, 0, 1);
    let cli = config(loopback, 3000);
    assert_eq!(cli.addr(), SocketAddress { ip: loopback, port: 3000 });
}

#[test]
fn addr_does_not_depend_on_other_fields() {
    let mut cli = config(IpAddress::V4(127, 0, 0, 1), 4000);
    let before = cli.addr();
    cli.open = true;
    cli.verbosity = Verbosity::Trace;
    cli.data_dir = Some("certs".to_string());
    assert_eq!(cli.addr(), before);
}

#[test]
fn uses_tls_exactly_with_a_data_dir() {
    let mut cli = Cli::default();
    assert!(!cli.uses_tls());
    cli.data_dir = Some("/var/lib/hello".to_string());
    assert!(cli.uses_tls());
    cli.data_dir = Some(String::new());
    assert!(cli.uses_tls());
}

#[test]
fn clone_keeps_every_field() {
    let cli = Cli {
        verbosity: Verbosity::Debug,
        bind: IpAddress::V6(0x2001, 0xdb8, 0, 0, 0, 0, 0, 0x42),
        port: 443,
        open: true,
        data_dir: Some("data".to_string()),
    };
    assert_eq!(cli.clone(), cli);
}
