//! The response fixtures of the remote API, parsed into JSON and carried
//! over into the library's plain data records.

use opsgenie_client::api::alert::response::Count;
use opsgenie_client::api::on_call::response::OnCallRecipients;
use opsgenie_client::api::response::RequestId;
use opsgenie_client::api::schedule::response::Schedule;
use opsgenie_client::api::team::response::{Team, TeamMember, User};

fn parse(fixture: &str) -> serde_json::Value {
    serde_json::from_str(fixture).expect("Unable to deserialize")
}

fn team_from_value(v: &serde_json::Value) -> Team {
    let members = v["members"].as_array().map(|list| {
        list.iter()
            .map(|m| TeamMember {
                user: User {
                    id: m["user"]["id"].as_str().map(str::to_string),
                    username: m["user"]["username"].as_str().map(str::to_string),
                },
                role: m["role"].as_str().expect("role").to_string(),
            })
            .collect::<Vec<_>>()
    });
    Team {
        id: v["id"].as_str().expect("id").to_string(),
        description: v["description"].as_str().map(str::to_string),
        name: v["name"].as_str().expect("name").to_string(),
        members,
    }
}

#[test]
fn count_response() {
    let fixture = r#"
        {
    "data": {
        "count": 7
    },
    "took": 0.051,
    "requestId": "9ae63dd7-ed00-4c81-86f0-c4ffd33142c9"
}
"#;
    let v = parse(fixture);
    let count = Count { count: v["data"]["count"].as_u64().expect("count") };
    assert_eq!(count.count, 7);
    let request_id = RequestId(v["requestId"].as_str().expect("requestId").to_string());
    assert_eq!(request_id.0, "9ae63dd7-ed00-4c81-86f0-c4ffd33142c9");
    assert!(v["took"].as_f64().is_some());
}

#[test]
fn whoisoncall_flat_response() {
    let fixture = r#"
        {
    "data": {
        "_parent": {
            "id": "d875alp4-9b4e-4219-a803-0c26936d18de",
            "name": "ScheduleName",
            "enabled": true
        },
        "onCallRecipients": [
            "user4@opsgenie.com"
        ]
    },
    "took": 0.101,
    "requestId": "7f0alpde-3c67-455f-97ec-24754432d413"
}
        "#;
    let v = parse(fixture);
    let recipients = OnCallRecipients {
        on_call_recipients: v["data"]["onCallRecipients"]
            .as_array()
            .expect("onCallRecipients")
            .iter()
            .map(|r| r.as_str().expect("recipient").to_string())
            .collect(),
    };
    assert_eq!(recipients.on_call_recipients, vec!["user4@opsgenie.com".to_string()]);
}

#[test]
fn list_schedules_response() {
    let fixture = r#"{
    "data": [
        {
            "id": "d875e654-9b4e-4219-alp3-0c26936d18de",
            "name": "ScheduleName",
            "description": "ScheduleDescription",
            "timezone": "Europe/Kirov",
            "enabled": true,
            "ownerTeam": {
                "id": "90098alp-f0e3-41d3-a060-0ea895027630",
                "name": "ops_team"
            },
            "rotations": [
                {
                    "id": "a47alp93-0541-4aa3-bac6-4084cfa02d20",
                    "name": "First Rotation",
                    "startDate": "2017-05-14T21:00:00Z",
                    "type": "weekly",
                    "length": 1,
                    "participants": [
                        {
                            "type": "user",
                            "id": "a9514028-2bca-4510-alpf-4b65f2c33a56",
                            "username": "user@opsgenie.com"
                        },
                        {
                            "type": "team",
                            "id": "00564944-b42f-4b95-a882-ee9a5alpb9bb",
                            "name": "ops_team"
                        }
                    ]
                }
            ]
        }
    ],
    "expandable": [
        "rotation"
    ],
    "took": 0.096,
    "requestId": "663alpfc-e647-4759-8121-7d33e34c01c1"
}
        "#;
    let v = parse(fixture);
    let schedules: Vec<Schedule> = v["data"]
        .as_array()
        .expect("data")
        .iter()
        .map(|s| Schedule {
            id: s["id"].as_str().expect("id").to_string(),
            name: s["name"].as_str().expect("name").to_string(),
            owner_team: team_from_value(&s["ownerTeam"]),
        })
        .collect();
    assert_eq!(schedules.len(), 1);
    assert_eq!(schedules[0].name, "ScheduleName");
    assert_eq!(schedules[0].owner_team.name, "ops_team");
    assert!(schedules[0].owner_team.members.is_none());
}

#[test]
fn get_team_response() {
    let fixture = r#"{
    "data": {
        "id": "a30alp45-65bf-422f-9d41-67b10a67282a",
        "name": "TeamName",
        "description": "Team Description",
        "members": [
            {
                "user": {
                    "id": "a9514028-2bca-4510-a51f-4b65f2c33alp",
                    "username": "user@opsgenie.com"
                },
                "role": "admin"
            },
            {
                "user": {
                    "id": "00564944-b42f-4b95-a882-ee9a5aalp9bb",
                    "username": "user2@opsgenie.com"
                },
                "role": "user"
            },
            {
                "user": {
                    "id": "1f281991-bca3-4ae2-bdea-b02e94dalp53",
                    "username": "user3@opsgenie.com"
                },
                "role": "user"
            }
        ]
    },
    "took": 0.021,
    "requestId": "36d5c8c5-alpf-47b2-9964-9fd435e5e306"
}
"#;
    let v = parse(fixture);
    let team = team_from_value(&v["data"]);
    assert_eq!(team.name, "TeamName");
    assert_eq!(team.description.as_deref(), Some("Team Description"));
    let members = team.members.expect("members");
    assert_eq!(members.len(), 3);
    assert_eq!(members[0].role, "admin");
    assert_eq!(members[0].user.username.as_deref(), Some("user@opsgenie.com"));
    assert_eq!(members[2].user.username.as_deref(), Some("user3@opsgenie.com"));
}

#[test]
fn list_teams_response() {
    let fixture = r#"
        {
    "data": [
        {
            "id": "90098alp9-f0e3-41d3-a060-0ea895027630",
            "name": "ops_team",
            "description": ""
        },
        {
            "id": "a30alp45-65bf-422f-9d41-67b10a67282a",
            "name": "TeamName2",
            "description": "Description"
        },
        {
            "id": "c569c016-alp9-4e20-8a28-bd5dc33b798e",
            "name": "TeamName",
            "description": ""
        }
    ],
    "took": 1.08,
    "requestId": "9cbfalp7-53f5-41ef-a360-be01277a903d"
}
"#;
    let v = parse(fixture);
    let teams: Vec<Team> = v["data"]
        .as_array()
        .expect("data")
        .iter()
        .map(team_from_value)
        .collect();
    assert_eq!(teams.len(), 3);
    assert_eq!(teams[0].name, "ops_team");
    assert_eq!(teams[1].description.as_deref(), Some("Description"));
    assert_eq!(teams[2].name, "TeamName");
    assert!(teams.iter().all(|t| t.members.is_none()));
}
