use qobuz_player::sub_tab::SubTab;

const ALL: [SubTab; 4] = [SubTab::Albums, SubTab::Artists, SubTab::Playlists, SubTab::Tracks];

#[test]
fn selected_gives_sidebar_position() {
    assert_eq!(SubTab::Albums.selected(), 0);
    assert_eq!(SubTab::Artists.selected(), 1);
    assert_eq!(SubTab::Playlists.selected(), 2);
    assert_eq!(SubTab::Tracks.selected(), 3);
}

#[test]
fn from_u8_wraps_around() {
    assert_eq!(SubTab::from_u8(0), SubTab::Albums);
    assert_eq!(SubTab::from_u8(3), SubTab::Tracks);
    assert_eq!(SubTab::from_u8(4), SubTab::Albums);
    assert_eq!(SubTab::from_u8(5), SubTab::Artists);
    assert_eq!(SubTab::from_u8(255), SubTab::Tracks);
}

#[test]
fn from_u8_undoes_selected() {
    for tab in ALL {
        assert_eq!(SubTab::from_u8(tab.selected()), tab);
    }
}

#[test]
fn next_and_previous_wrap() {
    assert_eq!(SubTab::Albums.next(), SubTab::Artists);
    assert_eq!(SubTab::Tracks.next(), SubTab::Albums);
    assert_eq!(SubTab::Albums.previous(), SubTab::Tracks);
    assert_eq!(SubTab::Playlists.previous(), SubTab::Artists);
}

#[test]
fn next_and_previous_undo_each_other() {
    for tab in ALL {
        assert_eq!(tab.next().previous(), tab);
        assert_eq!(tab.previous().next(), tab);
    }
}

#[test]
fn four_steps_come_back() {
    for tab in ALL {
        assert_eq!(tab.next().next().next().next(), tab);
        assert_ne!(tab.next(), tab);
        assert_ne!(tab.next().next(), tab);
        assert_ne!(tab.next().next().next(), tab);
    }
}

#[test]
fn labels_in_order() {
    assert_eq!(SubTab::labels(), vec!["Albums", "Artists", "Playlists", "Tracks"]);
    for tab in ALL {
        assert_eq!(SubTab::labels()[tab.selected() as usize], tab.as_str());
    }
}

#[test]
fn to_string_is_label() {
    assert_eq!(SubTab::Playlists.to_string(), "Playlists");
    assert_eq!(SubTab::Albums.to_string(), String::from("Albums"));
}

#[test]
fn values_and_count() {
    assert_eq!(SubTab::COUNT, 4);
    assert_eq!(SubTab::VALUES, ALL);
}

#[test]
fn default_is_albums() {
    assert_eq!(SubTab::default(), SubTab::Albums);
}

#[test]
fn order_follows_sidebar() {
    assert!(SubTab::Albums < SubTab::Artists);
    assert!(SubTab::Artists < SubTab::Playlists);
    assert!(SubTab::Playlists < SubTab::Tracks);
    assert!(!(SubTab::Tracks < SubTab::Albums));
    let mut v = vec![SubTab::Tracks, SubTab::Albums, SubTab::Playlists, SubTab::Artists];
    v.sort();
    assert_eq!(v, ALL.to_vec());
    assert_eq!(SubTab::Tracks.cmp(&SubTab::Artists), std::cmp::Ordering::Greater);
}

#[test]
fn labels_distinct() {
    for a in ALL {
        for b in ALL {
            assert_eq!(a == b, a.as_str() == b.as_str());
        }
    }
}
