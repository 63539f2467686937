use honeypot::webhook::{ip_info, log_join, log_leave, log_mc_ping};

#[test]
fn test_ip_info() {
    let ip = "192.168.1.74";

    assert_eq!(
        ip_info(&format!("{ip}:25565")),
        format!("[`{ip}`](<https://ipinfo.io/{ip}>)")
    );
}

#[test]
fn ip_info_without_port_keeps_whole_address() {
    assert_eq!(ip_info("8.8.8.8"), "[`8.8.8.8`](<https://ipinfo.io/8.8.8.8>)");
}

#[test]
fn ip_info_cuts_at_first_colon() {
    assert_eq!(ip_info("1.2.3.4:5:6"), "[`1.2.3.4`](<https://ipinfo.io/1.2.3.4>)");
    assert_eq!(ip_info("::1"), "[``](<https://ipinfo.io/>)");
    assert_eq!(ip_info(""), "[``](<https://ipinfo.io/>)");
}

#[test]
fn ip_info_port_makes_no_difference() {
    for port in ["1", "25565", "", "x:y"] {
        assert_eq!(ip_info(&format!("10.0.0.1:{port}")), ip_info("10.0.0.1"));
    }
}

#[test]
fn ping_to_local_target_is_not_reported() {
    assert_eq!(log_mc_ping("1.2.3.4:5000", "192.168.0.10"), None);
    assert_eq!(log_mc_ping("1.2.3.4:5000", "192.168"), None);
}

#[test]
fn ping_to_public_target_is_reported() {
    assert_eq!(
        log_mc_ping("1.2.3.4:5000", "mc.example.org"),
        Some("ping: [`1.2.3.4`](<https://ipinfo.io/1.2.3.4>) with target mc.example.org".to_string())
    );
    assert_eq!(
        log_mc_ping("1.2.3.4", "192.16"),
        Some("ping: [`1.2.3.4`](<https://ipinfo.io/1.2.3.4>) with target 192.16".to_string())
    );
}

#[test]
fn join_from_local_address_is_not_reported() {
    assert_eq!(log_join("192.168.1.2", "Steve"), None);
}

#[test]
fn join_from_public_address_is_reported() {
    assert_eq!(
        log_join("5.6.7.8", "Steve"),
        Some("([`5.6.7.8`](<https://ipinfo.io/5.6.7.8>)) Steve joined the server".to_string())
    );
}

#[test]
fn leave_is_always_reported() {
    assert_eq!(
        log_leave("192.168.1.2", "Alex"),
        "([`192.168.1.2`](<https://ipinfo.io/192.168.1.2>)) Alex disconnected"
    );
}
