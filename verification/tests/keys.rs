use sensor_registry::body::home::HomeCreate;
use sensor_registry::entities::{application, data_container, home, sensor, sensor_data, subscribers};
use sensor_registry::entity::{Entity, Updatable};
use sensor_registry::url::is_absolute_url;
use sensor_registry::utils::{get_redis_id, get_redis_set_options, CACHE_TTL_SECONDS};

#[test]
fn redis_id_joins_route_and_id_with_an_underscore() {
    assert_eq!(get_redis_id("Home", &"abc".to_string()), "Home_abc");
    assert_eq!(get_redis_id("SensorData", &"x_y-z".to_string()), "SensorData_x_y-z");
}

#[test]
fn redis_id_of_empty_parts() {
    assert_eq!(get_redis_id("", &String::new()), "_");
    assert_eq!(get_redis_id("Home", &String::new()), "Home_");
    assert_eq!(get_redis_id("", &"id".to_string()), "_id");
}

#[test]
fn redis_id_keeps_non_ascii_text() {
    assert_eq!(get_redis_id("Home", &"süß".to_string()), "Home_süß");
}

#[test]
fn redis_ids_of_different_routes_differ_for_awkward_ids() {
    let a = get_redis_id("Sensor", &"Data_1".to_string());
    let b = get_redis_id("SensorData", &"1".to_string());
    assert_eq!(a, "Sensor_Data_1");
    assert_eq!(b, "SensorData_1");
    assert_ne!(a, b);
}

#[test]
fn set_options_expire_after_thirty_seconds() {
    assert_eq!(CACHE_TTL_SECONDS, 30);
    assert_eq!(get_redis_set_options().expire_after_seconds, 30);
}

#[test]
fn routes_are_the_entity_names() {
    assert_eq!(home::Model::route(), "Home");
    assert_eq!(application::Model::route(), "Application");
    assert_eq!(sensor::Model::route(), "Sensor");
    assert_eq!(data_container::Model::route(), "DataContainer");
    assert_eq!(sensor_data::Model::route(), "SensorData");
    assert_eq!(subscribers::Model::route(), "Subscriber");
}

#[test]
fn identifiers_have_ten_symbols_but_for_readings() {
    assert_eq!(home::Model::id_length(), 10);
    assert_eq!(application::Model::id_length(), 10);
    assert_eq!(sensor::Model::id_length(), 10);
    assert_eq!(data_container::Model::id_length(), 10);
    assert_eq!(sensor_data::Model::id_length(), 21);
    assert_eq!(subscribers::Model::id_length(), 10);
}

#[test]
fn absolute_urls_are_accepted() {
    assert!(is_absolute_url("http://example.test/hook"));
    assert!(is_absolute_url("https://example.test"));
    assert!(is_absolute_url("http://h"));
    assert!(is_absolute_url("a://b"));
    assert!(is_absolute_url("coap+tcp://[::1]:5683/x?y=1#z"));
    assert!(is_absolute_url("h2.x-y+z://host/path"));
}

#[test]
fn urls_without_scheme_or_authority_are_rejected() {
    assert!(!is_absolute_url(""));
    assert!(!is_absolute_url("example.test/hook"));
    assert!(!is_absolute_url("/hook"));
    assert!(!is_absolute_url("//example.test/hook"));
    assert!(!is_absolute_url("http:/example.test"));
    assert!(!is_absolute_url("http:example.test"));
    assert!(!is_absolute_url("http://"));
    assert!(!is_absolute_url("http:///path"));
    assert!(!is_absolute_url("http://?q"));
    assert!(!is_absolute_url("http://#f"));
    assert!(!is_absolute_url("://host"));
    assert!(!is_absolute_url("http"));
    assert!(!is_absolute_url("http:"));
    assert!(!is_absolute_url("http:/"));
}

#[test]
fn urls_with_bad_scheme_characters_are_rejected() {
    assert!(!is_absolute_url("1http://host"));
    assert!(!is_absolute_url("+http://host"));
    assert!(!is_absolute_url("ht_tp://host"));
    assert!(!is_absolute_url("ht/tp://host"));
}

#[test]
fn urls_with_blanks_or_other_scripts_are_rejected() {
    assert!(!is_absolute_url("http://example.test/a b"));
    assert!(!is_absolute_url(" http://example.test"));
    assert!(!is_absolute_url("http://example.test\n"));
    assert!(!is_absolute_url("http://exämple.test"));
    assert!(!is_absolute_url("http://example.test/\u{7f}"));
}

#[test]
fn home_needs_a_name() {
    assert!(home::Model::accepts(&home::HomeCU { name: "A".to_string() }));
    assert!(!home::Model::accepts(&home::HomeCU { name: String::new() }));
    assert!(home::Model::admits(&home::HomeCU { name: " ".to_string() }));
    assert!(!home::Model::admits(&home::HomeCU { name: String::new() }));
}

#[test]
fn subscriber_needs_an_absolute_url() {
    let good = subscribers::SubscriberCreate {
        container_id: "c".to_string(),
        notification_url: "http://example.test/hook".to_string(),
    };
    let bad = subscribers::SubscriberCreate {
        container_id: "c".to_string(),
        notification_url: "example.test/hook".to_string(),
    };
    assert!(subscribers::Model::accepts(&good));
    assert!(!subscribers::Model::accepts(&bad));
    assert!(subscribers::Model::admits(&subscribers::SubscriberUpdate {
        notification_url: "https://example.test".to_string(),
    }));
    assert!(!subscribers::Model::admits(&subscribers::SubscriberUpdate {
        notification_url: String::new(),
    }));
}

#[test]
fn other_entities_accept_any_fields() {
    assert!(application::Model::accepts(&application::ApplicationCreate {
        name: String::new(),
        home_id: String::new(),
    }));
    assert!(application::Model::admits(&application::ApplicationUpdate { name: String::new() }));
    assert!(sensor::Model::accepts(&sensor::SensorCreate {
        name: String::new(),
        application_id: String::new(),
    }));
    assert!(sensor::Model::admits(&sensor::SensorUpdate { name: String::new() }));
    assert!(data_container::Model::accepts(&data_container::DataContainerCreate {
        sensor_id: String::new(),
    }));
}

fn reading_with(data: &str) -> sensor_data::SensorDataCreate {
    sensor_data::SensorDataCreate { container_id: "c1".to_string(), data: data.to_string() }
}

#[test]
fn reading_needs_data_that_reads_as_json() {
    assert!(sensor_data::Model::accepts(&reading_with("{\"temp\":21.5}")));
    assert!(sensor_data::Model::accepts(&reading_with("null")));
    assert!(sensor_data::Model::accepts(&reading_with(" [1, \"two\", {\"three\": [3.0]}] ")));
    assert!(sensor_data::Model::accepts(&reading_with("\"text\"")));
    assert!(sensor_data::Model::accepts(&reading_with("-0.5e3")));
    assert!(sensor_data::Model::accepts(&sensor_data::SensorDataCreate {
        container_id: String::new(),
        data: "true".to_string(),
    }));
}

#[test]
fn reading_with_data_that_is_no_json_is_rejected() {
    assert!(!sensor_data::Model::accepts(&reading_with("")));
    assert!(!sensor_data::Model::accepts(&reading_with("{temp: 21.5}")));
    assert!(!sensor_data::Model::accepts(&reading_with("{\"temp\":21.5")));
    assert!(!sensor_data::Model::accepts(&reading_with("21.5 22.5")));
    assert!(!sensor_data::Model::accepts(&reading_with("{\"temp\":21.5}}")));
    assert!(!sensor_data::Model::accepts(&reading_with("c1")));
}

#[test]
fn home_create_body_gives_owned_fields() {
    let received = String::from("Lakeside");
    let body = HomeCreate { name: received.as_str() };
    assert_eq!(body.to_fields(), home::HomeCU { name: "Lakeside".to_string() });
}

#[test]
fn changes_replace_the_named_field_only() {
    let before = home::Model { id: "h1".to_string(), created_at: 7, name: "A".to_string() };
    let after = before.clone().apply(home::HomeCU { name: "B".to_string() });
    assert_eq!(after, home::Model { id: "h1".to_string(), created_at: 7, name: "B".to_string() });

    let app = application::Model {
        id: "a1".to_string(),
        home_id: "h1".to_string(),
        name: "old".to_string(),
        created_at: 9,
    };
    assert_eq!(
        app.apply(application::ApplicationUpdate { name: "new".to_string() }),
        application::Model {
            id: "a1".to_string(),
            home_id: "h1".to_string(),
            name: "new".to_string(),
            created_at: 9,
        }
    );

    let sensor = sensor::Model {
        id: "s1".to_string(),
        application_id: "a1".to_string(),
        name: "old".to_string(),
        created_at: 11,
    };
    assert_eq!(
        sensor.apply(sensor::SensorUpdate { name: "new".to_string() }),
        sensor::Model {
            id: "s1".to_string(),
            application_id: "a1".to_string(),
            name: "new".to_string(),
            created_at: 11,
        }
    );

    let subscriber = subscribers::Model {
        id: "u1".to_string(),
        container_id: "c1".to_string(),
        notification_url: "http://old.test".to_string(),
        created_at: 13,
    };
    assert_eq!(
        subscriber.apply(subscribers::SubscriberUpdate {
            notification_url: "http://new.test".to_string(),
        }),
        subscribers::Model {
            id: "u1".to_string(),
            container_id: "c1".to_string(),
            notification_url: "http://new.test".to_string(),
            created_at: 13,
        }
    );
}

#[test]
fn entities_report_their_own_id() {
    let home = home::Model { id: "h1".to_string(), created_at: 0, name: "A".to_string() };
    assert_eq!(home.id(), "h1");
    let reading = sensor_data::Model {
        id: "r1".to_string(),
        container_id: "c1".to_string(),
        data: None,
        created_at: 0,
    };
    assert_eq!(reading.id(), "r1");
}
