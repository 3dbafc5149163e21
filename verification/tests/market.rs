use loothound::oauth::authorization_code;
use loothound::market::{
    get_pricing_leagues, request_url, requests, MarketRequest, CURRENCY_CATEGORY_COUNT,
    ITEM_CATEGORY_COUNT, LEAGUE_COUNT, REQUEST_COUNT,
};

#[test]
fn pricing_leagues_are_the_two_tracked() {
    assert_eq!(get_pricing_leagues(), vec!["Standard".to_string(), "Ancestor".to_string()]);
}

#[test]
fn one_request_for_each_league_and_category() {
    assert_eq!(LEAGUE_COUNT * (CURRENCY_CATEGORY_COUNT + ITEM_CATEGORY_COUNT), REQUEST_COUNT);
    let plan = requests();
    assert_eq!(plan.len(), 40);
    let categories = [
        "Currency",
        "Fragment",
        "DivinationCard",
        "Artifact",
        "Oil",
        "Incubator",
        "UniqueWeapon",
        "UniqueArmour",
        "UniqueAccessory",
        "UniqueFlask",
        "UniqueJewel",
        "UniqueMap",
        "DeliriumOrb",
        "Invitation",
        "Scarab",
        "Fossil",
        "Resonator",
        "Beast",
        "Essence",
        "Vial",
    ];
    for (k, request) in plan.iter().enumerate() {
        let league = if k < 20 { "Standard" } else { "Ancestor" };
        assert_eq!(request.league, league);
        assert_eq!(request.category, categories[k % 20]);
        assert_eq!(request.currency, k % 20 < 2);
    }
}

#[test]
fn currency_requests_go_to_the_currency_overview() {
    let plan = requests();
    assert_eq!(
        request_url(&plan[0]),
        "https://poe.ninja/api/data/currencyoverview?league=Standard&type=Currency"
    );
    assert_eq!(
        request_url(&plan[21]),
        "https://poe.ninja/api/data/currencyoverview?league=Ancestor&type=Fragment"
    );
}

#[test]
fn item_requests_go_to_the_item_overview() {
    let plan = requests();
    assert_eq!(
        request_url(&plan[2]),
        "https://poe.ninja/api/data/itemoverview?league=Standard&type=DivinationCard"
    );
    assert_eq!(
        request_url(&plan[39]),
        "https://poe.ninja/api/data/itemoverview?league=Ancestor&type=Vial"
    );
    let custom = MarketRequest {
        league: "Hardcore".to_string(),
        category: "Oil".to_string(),
        currency: false,
    };
    assert_eq!(
        request_url(&custom),
        "https://poe.ninja/api/data/itemoverview?league=Hardcore&type=Oil"
    );
}

#[test]
fn the_authorization_code_is_the_first_query_value() {
    assert_eq!(
        authorization_code("http://localhost:61360/auth?code=abc123&state=xyz"),
        Some("abc123".to_string())
    );
    assert_eq!(
        authorization_code("http://localhost:61360/auth?code=a%20b+c"),
        Some("a b c".to_string())
    );
    assert_eq!(authorization_code("http://localhost:61360/auth?flag"), Some(String::new()));
    assert_eq!(authorization_code("http://localhost:61360/auth"), None);
    assert_eq!(authorization_code("not an address"), None);
}
