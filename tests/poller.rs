use price_poller::{
    default_assets, json_pointer, price_in, price_line, read_price, separator_line,
    status_is_success, Action, Asset, Phase, PollError, Poller, Reply, POLL_SECONDS,
};

fn keys(list: &[&str]) -> Vec<String> {
    list.iter().map(|k| k.to_string()).collect()
}

fn answer(status: u16, body: &str) -> Reply {
    Reply::Answered { status, body: body.as_bytes().to_vec() }
}

fn quote(id: &str, price: &str) -> Reply {
    answer(200, &format!("{{\"{}\":{{\"usd\":{}}}}}", id, price))
}

const IDS: [&str; 3] = ["bitcoin", "ethereum", "sp-500"];

/// Drives one cycle with the given replies, appending to `log` what the poller asks
/// to write. Returns the action the poller ends the cycle with.
fn drive_cycle(p: &mut Poller, replies: Vec<Reply>, log: &mut Vec<String>) -> Action {
    let mut action = p.action();
    for reply in replies {
        match action {
            Action::Get(_) => {}
            other => return other,
        }
        action = p.on_reply(&reply);
        match action {
            Action::Append(lines) => {
                log.extend(lines);
                action = p.on_written(true);
            }
            other => return other,
        }
    }
    action
}

#[test]
fn pointer_joins_keys() {
    assert_eq!(json_pointer(&keys(&["bitcoin", "usd"])), "/bitcoin/usd");
    assert_eq!(json_pointer(&keys(&[])), "");
}

#[test]
fn pointer_escapes_slash_and_tilde() {
    assert_eq!(json_pointer(&keys(&["a/b", "~c"])), "/a~1b/~0c");
}

#[test]
fn bitcoin_price_is_read_exactly() {
    let r = price_in(b"{\"bitcoin\":{\"usd\":42000.5}}", &keys(&["bitcoin", "usd"]));
    assert_eq!(r, Ok("42000.5".to_string()));
}

#[test]
fn integer_price_keeps_its_digits() {
    let r = price_in(b"{\"sp-500\":{\"usd\":300}}", &keys(&["sp-500", "usd"]));
    assert_eq!(r, Ok("300".to_string()));
}

#[test]
fn missing_key_is_a_parse_error() {
    let r = price_in(b"{\"ethereum\":{\"usd\":1.5}}", &keys(&["bitcoin", "usd"]));
    assert_eq!(r, Err(PollError::ParseError));
}

#[test]
fn malformed_json_is_a_parse_error() {
    let r = price_in(b"{\"bitcoin\":{\"usd\":", &keys(&["bitcoin", "usd"]));
    assert_eq!(r, Err(PollError::ParseError));
}

#[test]
fn non_numeric_leaf_is_a_parse_error() {
    let r = price_in(b"{\"bitcoin\":{\"usd\":\"42000\"}}", &keys(&["bitcoin", "usd"]));
    assert_eq!(r, Err(PollError::ParseError));
}

#[test]
fn status_range() {
    assert!(!status_is_success(199));
    assert!(status_is_success(200));
    assert!(status_is_success(299));
    assert!(!status_is_success(300));
    assert!(!status_is_success(404));
}

#[test]
fn non_2xx_status_is_a_network_error() {
    let assets = default_assets();
    let r = read_price(&assets[0], &answer(503, "{\"bitcoin\":{\"usd\":1}}"));
    assert_eq!(r, Err(PollError::NetworkError));
}

#[test]
fn no_answer_is_a_network_error() {
    let assets = default_assets();
    assert_eq!(read_price(&assets[1], &Reply::Unreachable), Err(PollError::NetworkError));
}

#[test]
fn read_price_uses_the_assets_path() {
    let assets = default_assets();
    let body = "{\"bitcoin\":{\"usd\":1},\"ethereum\":{\"usd\":2}}";
    assert_eq!(read_price(&assets[1], &answer(200, body)), Ok("2".to_string()));
}

#[test]
fn every_asset_yields_a_finite_non_negative_price() {
    let assets = default_assets();
    for (asset, id) in assets.iter().zip(IDS.iter()) {
        let price = read_price(asset, &quote(id, "1234.25")).unwrap();
        let value: f64 = price.parse().unwrap();
        assert!(value.is_finite());
        assert!(value >= 0.0);
        assert_eq!(value, 1234.25);
    }
}

#[test]
fn default_assets_are_the_three_tracked() {
    let assets = default_assets();
    assert_eq!(assets.len(), 3);
    let names: Vec<&str> = assets.iter().map(|a| a.name.as_str()).collect();
    assert_eq!(names, vec!["Bitcoin", "Ethereum", "SP500"]);
    assert_eq!(
        assets[2].endpoint,
        "https://api.coingecko.com/api/v3/simple/price?ids=sp-500&vs_currencies=usd"
    );
    assert_eq!(assets[0].path, keys(&["bitcoin", "usd"]));
    assert_eq!(assets[2].path, keys(&["sp-500", "usd"]));
}

#[test]
fn line_format() {
    assert_eq!(price_line(&"Bitcoin".to_string(), &"42000.5".to_string()), "Bitcoin: 42000.5");
    assert_eq!(separator_line(), "----------------");
}

#[test]
fn first_action_fetches_the_first_asset() {
    let p = Poller::new(default_assets());
    assert_eq!(p.phase(), Phase::Fetching(0));
    match p.action() {
        Action::Get(url) => assert!(url.contains("ids=bitcoin")),
        other => panic!("unexpected {:?}", other),
    }
}

#[test]
fn one_cycle_appends_four_lines() {
    let mut p = Poller::new(default_assets());
    let mut log: Vec<String> = Vec::new();
    let replies = vec![quote("bitcoin", "100"), quote("ethereum", "200"), quote("sp-500", "300")];
    let end = drive_cycle(&mut p, replies, &mut log);
    assert_eq!(log, vec!["Bitcoin: 100", "Ethereum: 200", "SP500: 300", "----------------"]);
    assert!(matches!(end, Action::Sleep(10)));
    assert_eq!(p.phase(), Phase::Sleeping);
}

#[test]
fn two_cycles_append_eight_lines() {
    let mut p = Poller::new(default_assets());
    let mut log: Vec<String> = Vec::new();
    let first = vec![quote("bitcoin", "100"), quote("ethereum", "200"), quote("sp-500", "300")];
    drive_cycle(&mut p, first, &mut log);
    let after_first = log.clone();
    match p.on_woken() {
        Action::Get(url) => assert!(url.contains("ids=bitcoin")),
        other => panic!("unexpected {:?}", other),
    }
    let second = vec![quote("bitcoin", "101"), quote("ethereum", "201"), quote("sp-500", "301")];
    let end = drive_cycle(&mut p, second, &mut log);
    assert_eq!(log.len(), 8);
    assert_eq!(log[..4], after_first[..]);
    assert_eq!(log[4..], ["Bitcoin: 101", "Ethereum: 201", "SP500: 301", "----------------"]);
    assert!(matches!(end, Action::Sleep(_)));
}

#[test]
fn cycles_are_separated_by_the_fixed_interval() {
    assert_eq!(POLL_SECONDS, 10);
    let mut p = Poller::new(default_assets());
    let mut log: Vec<String> = Vec::new();
    let mut clock: u64 = 0;
    let mut starts: Vec<u64> = Vec::new();
    for _ in 0..3 {
        starts.push(clock);
        let replies =
            vec![quote("bitcoin", "1"), quote("ethereum", "2"), quote("sp-500", "3")];
        match drive_cycle(&mut p, replies, &mut log) {
            Action::Sleep(secs) => clock += secs,
            other => panic!("unexpected {:?}", other),
        }
        assert!(matches!(p.on_woken(), Action::Get(_)));
    }
    assert_eq!(starts, vec![0, 10, 20]);
    assert_eq!(log.len(), 12);
}

#[test]
fn missing_key_halts_without_writing() {
    let mut p = Poller::new(default_assets());
    let action = p.on_reply(&answer(200, "{\"ethereum\":{\"usd\":5}}"));
    assert!(matches!(action, Action::Halt(PollError::ParseError)));
    assert_eq!(p.phase(), Phase::Halted(PollError::ParseError));
}

#[test]
fn bad_status_halts_without_writing() {
    let mut p = Poller::new(default_assets());
    let mut log: Vec<String> = Vec::new();
    let replies = vec![quote("bitcoin", "100"), answer(500, "oops")];
    let end = drive_cycle(&mut p, replies, &mut log);
    assert_eq!(log, vec!["Bitcoin: 100"]);
    assert!(matches!(end, Action::Halt(PollError::NetworkError)));
    assert_eq!(p.phase(), Phase::Halted(PollError::NetworkError));
}

#[test]
fn failed_write_halts_with_file_error() {
    let mut p = Poller::new(default_assets());
    assert!(matches!(p.on_reply(&quote("bitcoin", "7")), Action::Append(_)));
    let action = p.on_written(false);
    assert!(matches!(action, Action::Halt(PollError::FileError)));
    assert_eq!(p.phase(), Phase::Halted(PollError::FileError));
}

#[test]
fn separator_follows_the_last_asset_of_any_list() {
    let assets = vec![Asset {
        name: "Gold".to_string(),
        endpoint: "https://example.com/gold".to_string(),
        path: keys(&["gold", "usd"]),
    }];
    let mut p = Poller::new(assets);
    let mut log: Vec<String> = Vec::new();
    drive_cycle(&mut p, vec![quote("gold", "2400")], &mut log);
    assert_eq!(log, vec!["Gold: 2400", "----------------"]);
}

#[test]
fn empty_asset_list_only_sleeps() {
    let mut p = Poller::new(Vec::new());
    assert_eq!(p.phase(), Phase::Sleeping);
    assert!(matches!(p.action(), Action::Sleep(10)));
    assert!(matches!(p.on_woken(), Action::Sleep(10)));
}

#[test]
fn negative_price_is_a_parse_error() {
    let assets = default_assets();
    let r = read_price(&assets[2], &answer(200, "{\"sp-500\":{\"usd\":-1.5}}"));
    assert_eq!(r, Err(PollError::ParseError));
}

#[test]
fn negative_price_halts_without_writing() {
    let mut p = Poller::new(default_assets());
    let action = p.on_reply(&quote("bitcoin", "-3"));
    assert!(matches!(action, Action::Halt(PollError::ParseError)));
}

#[test]
fn zero_price_is_accepted() {
    let r = price_in(b"{\"bitcoin\":{\"usd\":0}}", &keys(&["bitcoin", "usd"]));
    assert_eq!(r, Ok("0".to_string()));
}

#[test]
fn price_is_written_as_a_float64() {
    let path = keys(&["bitcoin", "usd"]);
    assert_eq!(price_in(b"{\"bitcoin\":{\"usd\":100.0}}", &path), Ok("100".to_string()));
    assert_eq!(price_in(b"{\"bitcoin\":{\"usd\":1e-7}}", &path), Ok("0.0000001".to_string()));
    assert_eq!(
        price_in(b"{\"bitcoin\":{\"usd\":9007199254740993}}", &path),
        Ok("9007199254740992".to_string())
    );
}

#[test]
fn non_utf8_body_is_a_parse_error() {
    let reply = Reply::Answered { status: 200, body: vec![b'{', b'"', 0xff, b'"', b':', b'1', b'}'] };
    let assets = default_assets();
    assert_eq!(read_price(&assets[0], &reply), Err(PollError::ParseError));
}
