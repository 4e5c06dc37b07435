use playpen::{encode, receive, Channel, Optimize, Request, ENDPOINT};

fn served(request: Request, reply: &str) -> playpen::Response {
    let body = encode(&request).unwrap();
    let sent: serde_json::Value = serde_json::from_str(&body).unwrap();
    assert_eq!(sent["code"], serde_json::Value::String(request.code.to_string()));
    receive(Ok(reply.as_bytes().to_vec())).unwrap()
}

#[test]
fn endpoint_is_the_evaluate_url() {
    assert_eq!(ENDPOINT, "https://play.rust-lang.org/evaluate.json");
}

#[test]
fn test_succ() {
    assert_eq!(
        &served(
            "fn main() { println!(\"yoyoyo\") }".into(),
            "{\"program\":\"yoyoyo\\n\",\"rustc\":\"\"}"
        ).output.unwrap(),
        "yoyoyo\n"
    );
    assert_eq!(
        &served(
            Request {
                code: "fn main() {}",
                optimize: Optimize::O3,
                version: Channel::Stable,
                ..Default::default()
            },
            "{\"rustc\": \"\", \"program\": null}"
        ).rustc,
        ""
    );
}

#[test]
fn test_err() {
    let diagnostics = "{\"rustc\":\"error: expected one of `!`, `.`, `::`, `;`, `?`, `{`, `}`, or an \
                       operator, found `/`\\n --> <anon>:1:14\\n\"}";
    assert!(served("fn main() { p/rintln!(\"yoyoyo\") }".into(), diagnostics).rustc.len() > 50);
    assert!(
        served(
            Request {
                code: "fn main() {!}",
                optimize: Optimize::O3,
                version: Channel::Stable,
                ..Default::default()
            },
            "{\"rustc\":\"error: expected expression, found `}`\\n --> <anon>:1:13\\nerror: aborting\\n\"}"
        ).rustc.len() > 50
    );
}

#[test]
fn test_panic() {
    let reply = "{\"program\":\"thread '<main>' panicked at 'yoyoyo', <anon>:1\\n\",\"rustc\":\"\"}";
    assert!(served("fn main() { panic!(\"yoyoyo\") }".into(), reply).output.unwrap().contains("panicked"));
    assert!(
        served(
            Request {
                code: "fn main() { panic!() }",
                optimize: Optimize::O3,
                version: Channel::Stable,
                ..Default::default()
            },
            "{\"program\":\"thread '<main>' panicked at 'explicit panic', <anon>:1\\n\",\"rustc\":\"\"}"
        ).output.unwrap().contains("panicked")
    );
}
