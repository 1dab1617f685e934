use tracker_lib::category::{AnimeSubCategory, Category, FancySubCategory, LiveActionSubCategory, SoftwareSubCategory};
use tracker_lib::models::{DatabaseError, InsertAction, Item, NewComment, NewTorrent, User};

fn user(nyaa: bool, password: Option<&str>) -> User {
    User {
        username: "u".to_string(),
        password: password.map(|s| s.to_string()),
        salt: None,
        email: None,
        nyaa,
        trusted: false,
        banned: false,
        nyaa_admin: false,
        nyaa_mod: false,
        avatar: None,
    }
}

fn new_torrent(id: Option<i32>) -> NewTorrent {
    NewTorrent {
        id,
        info_hash: "h".to_string(),
        title: "t".to_string(),
        category: 12,
        submitter: None,
        information: None,
        size: 1,
        date: 1,
        description: None,
        comments: 0,
        remake: false,
        trusted: false,
        anonymous: true,
        partial: true,
        deleted: false,
        hidden: false,
        next_update: None,
        update_count: 0,
        update_frequency: None,
    }
}

#[test]
fn item_names() {
    assert_eq!(Item::User.name(), "User");
    assert_eq!(Item::Torrent.name(), "Torrent");
    assert_eq!(Item::Comment.name(), "Comment");
}

#[test]
fn user_insert_decisions() {
    assert_eq!(user(true, None).insert_action(true, false), Err(DatabaseError::Exists(Item::User, "u".to_string())));
    assert_eq!(user(true, None).insert_action(true, true), Ok(InsertAction::Update));
    assert_eq!(user(true, None).insert_action(false, false), Ok(InsertAction::Create));
    assert_eq!(
        user(false, None).insert_action(false, false),
        Err(DatabaseError::MissingFields(vec!["password".to_string(), "salt".to_string(), "email".to_string()]))
    );
    assert_eq!(
        user(false, Some("p")).insert_action(false, true),
        Err(DatabaseError::MissingFields(vec!["salt".to_string(), "email".to_string()]))
    );
    let mut complete = user(false, Some("p"));
    complete.salt = Some("s".to_string());
    assert_eq!(
        complete.insert_action(false, false),
        Err(DatabaseError::MissingFields(vec!["email".to_string()]))
    );
    complete.email = Some("e@x".to_string());
    assert_eq!(complete.insert_action(false, true), Ok(InsertAction::Create));
    assert_eq!(complete.insert_action(true, true), Ok(InsertAction::Update));
    let mut no_salt = user(false, Some("p"));
    no_salt.email = Some("e@x".to_string());
    assert_eq!(
        no_salt.insert_action(false, false),
        Err(DatabaseError::MissingFields(vec!["salt".to_string()]))
    );
}

#[test]
fn user_hash() {
    let mut u = user(false, None);
    assert_eq!(u.hash(), Err(DatabaseError::MissingFields(vec!["password".to_string()])));
    let mut u = user(false, Some("secret"));
    u.hash().unwrap();
    let (h, s) = (u.password.clone().unwrap(), u.salt.clone().unwrap());
    assert!(tracker_lib::password::verify_password("secret", &h, &s));
}

#[test]
fn torrent_insert_decisions() {
    assert_eq!(new_torrent(Some(5)).insert_action(true, false), Err(DatabaseError::Exists(Item::Torrent, "5".to_string())));
    assert_eq!(new_torrent(Some(5)).insert_action(true, true), Ok(InsertAction::Update));
    assert_eq!(new_torrent(None).insert_action(true, false), Ok(InsertAction::Create));
    assert_eq!(new_torrent(Some(5)).insert_action(false, true), Ok(InsertAction::Create));
}

#[test]
fn comment_insert_decisions() {
    let c = NewComment { id: Some(8), torrent_id: -3, submitter: "u".to_string(), date_created: 1, date_edited: None, text: "x".to_string() };
    assert_eq!(c.insert_action(false, false, false), Err(DatabaseError::NotExists(Item::Torrent, "-3".to_string())));
    assert_eq!(c.insert_action(true, true, false), Err(DatabaseError::Exists(Item::Comment, "8".to_string())));
    assert_eq!(c.insert_action(true, true, true), Ok(InsertAction::Update));
    assert_eq!(c.insert_action(true, false, false), Ok(InsertAction::Create));
}

#[test]
fn categories() {
    assert_eq!(Category::from_u8(10), Some(Category::Anime(AnimeSubCategory::Anime)));
    assert_eq!(Category::from_u8(15), None);
    assert_eq!(Category::from_u8(0), None);
    assert_eq!(Category::from_u8(62), Some(Category::Software(SoftwareSubCategory::Games)));
    let amv = Category::Anime(AnimeSubCategory::AnimeMusicVideo);
    assert_eq!(amv.get(), 11);
    assert_eq!(amv.fancy(), "Anime - Anime Music Video");
    assert_eq!(amv.normal(), "Anime - AMV");
    assert_eq!(Category::Anime(AnimeSubCategory::Anime).normal(), "Anime");
    assert_eq!(Category::LiveAction(LiveActionSubCategory::LiveAction).normal(), "Live Action");
    assert_eq!(Category::LiveAction(LiveActionSubCategory::IdolPromotionalVideo).fancy(), "Live Action - Idol/Promotional Video");
    assert_eq!(SoftwareSubCategory::Applications.fancy(), "Applications");
    assert_eq!(SoftwareSubCategory::Applications.name(), "Apps");
    let sub = amv.subcategory();
    assert_eq!((sub.id, sub.name.as_str(), sub.fancy.as_str()), (11, "AMV", "Anime Music Video"));
}

#[test]
fn all_categories() {
    let ids: Vec<u8> = Category::all().iter().map(|c| c.get()).collect();
    assert_eq!(ids, vec![10, 11, 12, 13, 14, 20, 21, 22, 30, 31, 32, 33, 40, 41, 42, 43, 44, 50, 51, 52, 60, 61, 62]);
    for n in 0..=255u8 {
        if let Some(c) = Category::from_u8(n) {
            assert_eq!(c.get(), n);
        }
    }
}

#[test]
fn user_hash_keeps_other_fields() {
    let mut u = user(true, Some("pw"));
    u.trusted = true;
    u.banned = true;
    u.nyaa_mod = true;
    u.email = Some("e@x".to_string());
    u.avatar = Some("a.png".to_string());
    u.hash().unwrap();
    assert_eq!(u.username, "u");
    assert!(u.nyaa && u.trusted && u.banned && u.nyaa_mod && !u.nyaa_admin);
    assert_eq!(u.email.as_deref(), Some("e@x"));
    assert_eq!(u.avatar.as_deref(), Some("a.png"));
    assert_eq!(u.password.as_ref().unwrap().len(), 128);
}
