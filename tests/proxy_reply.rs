use pokeback::proxy::{Ability, DetailRecord, TypeSlot, detail_url, encode_detail, list_url, proxy_reply};

fn pikachu() -> DetailRecord {
    DetailRecord {
        name: "pikachu".to_string(),
        id: 25,
        height: 4,
        weight: 60,
        base_experience: 112,
        types: vec![TypeSlot { slot: 1, name: "electric".to_string() }],
        abilities: vec![
            Ability { name: "static".to_string() },
            Ability { name: "lightning-rod".to_string() },
        ],
        front_default: "https://img/25.png".to_string(),
    }
}

fn header<'a>(hs: &'a [(String, String)], name: &str) -> Option<&'a str> {
    hs.iter().find(|(k, _)| k == name).map(|(_, v)| v.as_str())
}

#[test]
fn found_detail_replies_200_with_json_and_cors() {
    let url = detail_url("http://stub", 25);
    assert_eq!(url, "http://stub/pokemon/25");
    let reply = proxy_reply(Some(pikachu()));
    assert_eq!(reply.status, 200);
    assert_eq!(header(&reply.headers, "access-control-allow-origin"), Some("*"));
    assert_eq!(header(&reply.headers, "access-control-allow-methods"), Some("GET"));
    assert_eq!(header(&reply.headers, "content-type"), Some("application/json"));
    let v: serde_json::Value = serde_json::from_str(&reply.body).unwrap();
    assert_eq!(v["name"], "pikachu");
}

#[test]
fn missing_detail_replies_404_with_cors() {
    assert_eq!(detail_url("http://stub", 999999), "http://stub/pokemon/999999");
    let reply = proxy_reply(None);
    assert_eq!(reply.status, 404);
    assert_eq!(reply.body, "");
    assert_eq!(header(&reply.headers, "access-control-allow-origin"), Some("*"));
    assert_eq!(header(&reply.headers, "content-type"), None);
}

#[test]
fn detail_json_has_upstream_shape() {
    let body = encode_detail(&pikachu());
    assert_eq!(
        body,
        "{\"name\":\"pikachu\",\"id\":25,\"height\":4,\"weight\":60,\"base_experience\":112,\"types\":[{\"slot\":1,\"type\":{\"name\":\"electric\"}}],\"abilities\":[{\"ability\":{\"name\":\"static\"}},{\"ability\":{\"name\":\"lightning-rod\"}}],\"sprites\":{\"front_default\":\"https://img/25.png\"}}"
    );
}

#[test]
fn detail_json_with_empty_arrays() {
    let mut d = pikachu();
    d.types = Vec::new();
    d.abilities = Vec::new();
    d.name = "mr. \"mime\"".to_string();
    let v: serde_json::Value = serde_json::from_str(&encode_detail(&d)).unwrap();
    assert_eq!(v["types"].as_array().unwrap().len(), 0);
    assert_eq!(v["abilities"].as_array().unwrap().len(), 0);
    assert_eq!(v["name"], "mr. \"mime\"");
}

#[test]
fn list_url_carries_limit() {
    assert_eq!(list_url("https://pokeapi.co/api/v2", 151), "https://pokeapi.co/api/v2/pokemon?limit=151");
    assert_eq!(list_url("http://h", 0), "http://h/pokemon?limit=0");
}
