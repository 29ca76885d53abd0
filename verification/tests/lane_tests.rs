use tt::engine::Query;
use tt::google::{lane, lanes, plan, Endpoint, RequestPlan};

const QUERY: Query = Query {
    sl: "pt",
    tl: "en",
    text: "bom dia",
};

fn pairs(name: &str) -> RequestPlan {
    plan(&lane(name).unwrap(), &QUERY)
}

fn has(list: &[(String, String)], k: &str, v: &str) -> bool {
    list.contains(&(k.to_string(), v.to_string()))
}

fn header<'a>(p: &'a RequestPlan, k: &str) -> Option<&'a str> {
    p.headers.iter().find(|(name, _)| name == k).map(|(_, v)| v.as_str())
}

#[test]
fn lane_names_are_unique_and_ordered_rich_first() {
    let all = lanes();
    let names: Vec<&str> = all.iter().map(|l| l.name).collect();
    assert_eq!(
        names,
        vec![
            "googleapis/dict-chrome-ex",
            "googleapis/at",
            "clients5/dict-chrome-ex",
            "clients5/at",
            "google.com/dict-chrome-ex",
            "google.com/at",
            "googleapis/t/dict-chrome-ex",
            "googleapis/t/at",
        ]
    );
}

#[test]
fn lookup_by_name() {
    assert!(lane("googleapis/at").is_some());
    assert!(lane("nope").is_none());
}

#[test]
fn rich_lane_requests_every_dictionary_section() {
    let p = pairs("googleapis/dict-chrome-ex");
    assert_eq!(p.url, "https://translate.googleapis.com/translate_a/single");
    let dt: Vec<&str> = p.query.iter().filter(|(k, _)| k == "dt").map(|(_, v)| v.as_str()).collect();
    assert_eq!(dt, vec!["t", "bd", "at", "rm", "qc"]);
    assert!(has(&p.query, "client", "dict-chrome-ex"));
    assert!(has(&p.query, "sl", "pt"));
    assert!(has(&p.query, "tl", "en"));
    assert!(has(&p.query, "q", "bom dia"));
    assert!(header(&p, "User-Agent").unwrap().contains("Chrome/"));
    assert_eq!(header(&p, "Referer"), Some("https://translate.google.com/"));
}

#[test]
fn hosts_and_clients_vary_per_lane() {
    assert!(pairs("clients5/at").url.starts_with("https://clients5.google.com/"));
    assert!(pairs("google.com/dict-chrome-ex").url.starts_with("https://translate.google.com/"));
    assert!(has(&pairs("google.com/at").query, "client", "at"));
}

#[test]
fn degraded_lanes_hit_the_t_endpoint_without_dictionary_params() {
    let p = pairs("googleapis/t/at");
    assert_eq!(p.url, "https://translate.googleapis.com/translate_a/t");
    assert!(p.query.iter().all(|(k, _)| k != "dt"));
    assert!(has(&p.query, "client", "at"));
    assert!(has(&p.query, "q", "bom dia"));
}

// Further properties of the lanes.

#[test]
fn the_last_two_lanes_use_the_t_endpoint() {
    let all = lanes();
    for (i, l) in all.iter().enumerate() {
        assert_eq!(l.endpoint == Endpoint::T, i >= 6, "lane {}", l.name);
    }
}

#[test]
fn plain_plan_is_exact() {
    let p = pairs("googleapis/t/dict-chrome-ex");
    let q: Vec<(&str, &str)> = p.query.iter().map(|(k, v)| (k.as_str(), v.as_str())).collect();
    assert_eq!(q, vec![("client", "dict-chrome-ex"), ("sl", "pt"), ("tl", "en"), ("q", "bom dia")]);
    let h: Vec<&str> = p.headers.iter().map(|(k, _)| k.as_str()).collect();
    assert_eq!(h, vec!["User-Agent", "Accept", "Accept-Language", "Referer"]);
}
