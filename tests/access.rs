use market_sync::access::{
	authenticate, authenticate_ip, rfc3339_millis, split_token, verdict, Access, Client, ClientSecurity, Verdict,
};

const NOW: i64 = 1_700_000_000_000;

fn client(access: Access, timestamp: bool, ips: &[&str]) -> Client {
	Client {
		key: "K1".to_string(),
		ip: ips.iter().map(|s| s.to_string()).collect(),
		security: ClientSecurity { access, timestamp },
	}
}

#[test]
fn tokens_split_at_tilde() {
	assert_eq!(split_token("/site/send-message~2023-11-14T22:13:20Z"), vec!["/site/send-message", "2023-11-14T22:13:20Z"]);
	assert_eq!(split_token(""), vec![""]);
	assert_eq!(split_token("a~~b~"), vec!["a", "", "b", ""]);
	assert_eq!(split_token("plain"), vec!["plain"]);
}

#[test]
fn rfc3339_reads_instant() {
	assert_eq!(rfc3339_millis("2023-11-14T22:13:20Z"), Some(NOW));
	assert_eq!(rfc3339_millis("2023-11-15T05:13:20.5+07:00"), Some(NOW + 500));
	assert_eq!(rfc3339_millis("yesterday"), None);
}

#[test]
fn listed_or_wildcard_address_is_allowed() {
	assert!(authenticate_ip(&client(Access::Private, false, &["10.0.0.1"]), "10.0.0.1"));
	assert!(!authenticate_ip(&client(Access::Private, false, &["10.0.0.1"]), "10.0.0.2"));
	assert!(authenticate_ip(&client(Access::Private, false, &["10.0.0.1", "*"]), "10.0.0.2"));
	assert!(!authenticate_ip(&client(Access::Private, false, &[]), "10.0.0.2"));
}

#[test]
fn private_client_needs_only_its_address() {
	let c = client(Access::Private, true, &["10.0.0.1"]);
	let ok = authenticate(Access::Private, &c, "K1", "10.0.0.1", "/trading/asset/", "", NOW);
	assert!(ok.result);
	assert_eq!(ok.response, "Request authenticated");
	let bad = authenticate(Access::Public, &c, "K1", "10.0.0.9", "/site/send-message", "", NOW);
	assert!(!bad.result);
	assert_eq!(bad.response, "Unauthorized IP address 10.0.0.9");
}

#[test]
fn unknown_key_is_refused() {
	let mut c = client(Access::Public, false, &["*"]);
	c.key = String::new();
	let r = authenticate(Access::Public, &c, "NOPE", "10.0.0.1", "/x", "/x~2023-11-14T22:13:20Z", NOW);
	assert!(!r.result);
	assert_eq!(r.response, "Unauthorized PLD key NOPE");
}

#[test]
fn public_client_on_private_route_is_denied() {
	let c = client(Access::Public, false, &["*"]);
	let r = authenticate(Access::Private, &c, "K1", "10.0.0.1", "/trading/asset/", "", NOW);
	assert!(!r.result);
	assert_eq!(r.response, "Access denied");
}

#[test]
fn public_request_checks_token() {
	let c = client(Access::Public, true, &["*"]);
	let path = "/site/send-message";
	let ok = authenticate(Access::Public, &c, "K1", "1.2.3.4", path, "/site/send-message~2023-11-14T22:13:20Z", NOW);
	assert!(ok.result);
	let bad_path = authenticate(Access::Public, &c, "K1", "1.2.3.4", path, "/other~2023-11-14T22:13:20Z", NOW);
	assert_eq!(bad_path.response, "Invalid path");
	let bad_token = authenticate(Access::Public, &c, "K1", "1.2.3.4", path, "garbage", NOW);
	assert_eq!(bad_token.response, "Invalid token");
	let ahead = authenticate(Access::Public, &c, "K1", "1.2.3.4", path, "/site/send-message~2023-11-14T22:13:26Z", NOW);
	assert!(!ahead.result);
	assert_eq!(ahead.response, "Token expired");
	let just_inside = authenticate(Access::Public, &c, "K1", "1.2.3.4", path, "/site/send-message~2023-11-14T22:13:25.999Z", NOW);
	assert!(just_inside.result);
	let unreadable = authenticate(Access::Public, &c, "K1", "1.2.3.4", path, "/site/send-message~soon", NOW);
	assert!(unreadable.result);
}

#[test]
fn verdict_without_timestamp_check_ignores_age() {
	let c = client(Access::Public, false, &["*"]);
	let tokens = vec!["/p".to_string(), "x".to_string()];
	assert_eq!(verdict(Access::Public, &c, "1.1.1.1", "/p", &tokens, NOW + 60_000, NOW), Verdict::Authenticated);
	let strict = client(Access::Public, true, &["*"]);
	assert_eq!(verdict(Access::Public, &strict, "1.1.1.1", "/p", &tokens, NOW + 60_000, NOW), Verdict::TokenExpired);
	assert_eq!(verdict(Access::Public, &strict, "1.1.1.1", "/p", &tokens, NOW + 5_999, NOW), Verdict::Authenticated);
}

#[test]
fn rsa_key_sizes() {
	assert!(market_sync::access::rsa_key_size_allowed(2048));
	assert!(market_sync::access::rsa_key_size_allowed(4096));
	assert!(!market_sync::access::rsa_key_size_allowed(512));
}
