use stellar_save::{Address, Error, GroupStatus, StellarSave};

const NOW: u64 = 1_700_000_000;

fn create_test_env() -> (StellarSave, Address) {
    let client = StellarSave::new();
    let admin = Address { id: 1 };
    (client, admin)
}

fn create(client: &mut StellarSave, admin: Address, name: &str, amount: i128, duration: u64, max: u32) -> u64 {
    client
        .create_group(admin, String::from(name), amount, duration, max, NOW)
        .unwrap()
}

fn set_state(client: &mut StellarSave, group_id: u64, status: Option<GroupStatus>, members: Option<u32>) {
    let mut group = client.load_group(group_id).unwrap();
    if let Some(s) = status {
        group.status = s;
    }
    if let Some(m) = members {
        group.member_count = m;
    }
    client.save_group(group).unwrap();
}

#[test]
fn test_is_group_active_returns_false_for_nonexistent_group() {
    let (client, _admin) = create_test_env();

    // An unknown group is reported inactive rather than as an error.
    let result = client.is_group_active(999);

    assert_eq!(result, false);
    assert_eq!(client.get_group(999).unwrap_err(), Error::GroupNotFound);
}

#[test]
fn test_is_group_active_returns_false_for_forming_group() {
    let (mut client, admin) = create_test_env();

    // Create a group (starts in Forming status)
    let group_id = create(&mut client, admin, "Test Group", 1000, 86400, 10);

    let is_active = client.is_group_active(group_id);

    assert_eq!(is_active, false);
}

#[test]
fn test_is_group_active_returns_false_for_completed_group() {
    let (mut client, admin) = create_test_env();

    let group_id = create(&mut client, admin, "Test Group", 1000, 86400, 10);

    set_state(&mut client, group_id, Some(GroupStatus::Completed), Some(5));

    let is_active = client.is_group_active(group_id);

    assert_eq!(is_active, false);
}

#[test]
fn test_is_group_active_returns_false_for_cancelled_group() {
    let (mut client, admin) = create_test_env();

    let group_id = create(&mut client, admin, "Test Group", 1000, 86400, 10);

    set_state(&mut client, group_id, Some(GroupStatus::Cancelled), Some(3));

    let is_active = client.is_group_active(group_id);

    assert_eq!(is_active, false);
}

#[test]
fn test_is_group_active_returns_false_for_zero_members() {
    let (mut client, admin) = create_test_env();

    let group_id = create(&mut client, admin, "Test Group", 1000, 86400, 10);

    set_state(&mut client, group_id, Some(GroupStatus::Active), Some(0));

    let is_active = client.is_group_active(group_id);

    assert_eq!(is_active, false);
}

#[test]
fn test_is_group_active_returns_false_when_members_exceed_max() {
    let (mut client, admin) = create_test_env();

    let group_id = create(&mut client, admin, "Test Group", 1000, 86400, 10);

    set_state(&mut client, group_id, Some(GroupStatus::Active), Some(11));

    let is_active = client.is_group_active(group_id);

    assert_eq!(is_active, false);
}

#[test]
fn test_is_group_active_returns_true_for_valid_active_group() {
    let (mut client, admin) = create_test_env();

    let group_id = create(&mut client, admin, "Test Group", 1000, 86400, 10);

    set_state(&mut client, group_id, Some(GroupStatus::Active), Some(5));

    let is_active = client.is_group_active(group_id);

    assert_eq!(is_active, true);
}

#[test]
fn test_is_group_active_returns_true_at_max_capacity() {
    let (mut client, admin) = create_test_env();

    let group_id = create(&mut client, admin, "Test Group", 1000, 86400, 10);

    set_state(&mut client, group_id, Some(GroupStatus::Active), Some(10));

    let is_active = client.is_group_active(group_id);

    assert_eq!(is_active, true);
}

#[test]
fn test_is_group_active_returns_true_with_one_member() {
    let (mut client, admin) = create_test_env();

    let group_id = create(&mut client, admin, "Test Group", 1000, 86400, 10);

    set_state(&mut client, group_id, Some(GroupStatus::Active), Some(1));

    let is_active = client.is_group_active(group_id);

    assert_eq!(is_active, true);
}

#[test]
fn test_activate_group_success() {
    let (mut client, admin) = create_test_env();

    let group_id = create(&mut client, admin, "Test Group", 1000, 86400, 10);

    set_state(&mut client, group_id, None, Some(3));

    client.activate_group(admin, group_id, NOW + 60).unwrap();

    assert_eq!(client.is_group_active(group_id), true);

    let group = client.get_group(group_id).unwrap();
    assert_eq!(group.status, GroupStatus::Active);
    assert_eq!(group.start_time, NOW + 60);
}

#[test]
fn test_activate_group_fails_without_members() {
    let (mut client, admin) = create_test_env();

    let group_id = create(&mut client, admin, "Test Group", 1000, 86400, 10);

    let result = client.activate_group(admin, group_id, NOW);

    assert_eq!(result, Err(Error::GroupNotActive));
}

#[test]
fn test_activate_group_fails_if_already_active() {
    let (mut client, admin) = create_test_env();

    let group_id = create(&mut client, admin, "Test Group", 1000, 86400, 10);

    set_state(&mut client, group_id, None, Some(3));

    client.activate_group(admin, group_id, NOW).unwrap();

    let result = client.activate_group(admin, group_id, NOW);

    assert_eq!(result, Err(Error::InvalidGroupStatus));
}

#[test]
fn test_get_group_returns_correct_data() {
    let (mut client, admin) = create_test_env();

    let name = String::from("Savings Circle");
    let contribution = 1000i128;
    let duration = 86400u64;
    let max = 10u32;

    let group_id = client
        .create_group(admin, name.clone(), contribution, duration, max, NOW)
        .unwrap();

    let group = client.get_group(group_id).unwrap();

    assert_eq!(group.id, group_id);
    assert_eq!(group.name, name);
    assert_eq!(group.admin, admin);
    assert_eq!(group.contribution_amount, contribution);
    assert_eq!(group.cycle_duration, duration);
    assert_eq!(group.max_members, max);
    assert_eq!(group.member_count, 0);
    assert_eq!(group.status, GroupStatus::Forming);
}

#[test]
fn test_get_total_groups_created_returns_zero_initially() {
    let (client, _admin) = create_test_env();

    let total = client.get_total_groups_created();

    assert_eq!(total, 0);
}

#[test]
fn test_get_total_groups_created_increments_on_group_creation() {
    let (mut client, admin) = create_test_env();

    assert_eq!(client.get_total_groups_created(), 0);

    let group_id_1 = create(&mut client, admin, "Group 1", 1000, 86400, 10);

    assert_eq!(client.get_total_groups_created(), 1);
    assert_eq!(group_id_1, 1);

    let group_id_2 = create(&mut client, admin, "Group 2", 2000, 172800, 20);

    assert_eq!(client.get_total_groups_created(), 2);
    assert_eq!(group_id_2, 2);

    let group_id_3 = create(&mut client, admin, "Group 3", 3000, 259200, 30);

    assert_eq!(client.get_total_groups_created(), 3);
    assert_eq!(group_id_3, 3);
}

#[test]
fn test_get_total_groups_created_persists_across_operations() {
    let (mut client, admin) = create_test_env();

    let group_id_1 = create(&mut client, admin, "Group 1", 1000, 86400, 10);
    let group_id_2 = create(&mut client, admin, "Group 2", 2000, 172800, 20);

    set_state(&mut client, group_id_1, None, Some(5));

    client.activate_group(admin, group_id_1, NOW).unwrap();

    assert_eq!(client.get_total_groups_created(), 2);

    set_state(&mut client, group_id_2, Some(GroupStatus::Cancelled), None);

    assert_eq!(client.get_total_groups_created(), 2);
}

#[test]
fn test_get_total_groups_created_counts_all_statuses() {
    let (mut client, admin) = create_test_env();

    let _group_id_1 = create(&mut client, admin, "Forming Group", 1000, 86400, 10);
    let group_id_2 = create(&mut client, admin, "Active Group", 2000, 172800, 20);
    let group_id_3 = create(&mut client, admin, "Completed Group", 3000, 259200, 30);
    let group_id_4 = create(&mut client, admin, "Cancelled Group", 4000, 345600, 40);

    set_state(&mut client, group_id_2, Some(GroupStatus::Active), Some(5));
    set_state(&mut client, group_id_3, Some(GroupStatus::Completed), Some(10));
    set_state(&mut client, group_id_4, Some(GroupStatus::Cancelled), None);

    assert_eq!(client.get_total_groups_created(), 4);
}

#[test]
fn test_group_ids_are_sequential() {
    let (mut client, admin) = create_test_env();

    let group_id_1 = create(&mut client, admin, "Group 1", 1000, 86400, 10);
    let group_id_2 = create(&mut client, admin, "Group 2", 2000, 172800, 20);
    let group_id_3 = create(&mut client, admin, "Group 3", 3000, 259200, 30);

    assert_eq!(group_id_1, 1);
    assert_eq!(group_id_2, 2);
    assert_eq!(group_id_3, 3);

    let group1 = client.get_group(group_id_1).unwrap();
    let group2 = client.get_group(group_id_2).unwrap();
    let group3 = client.get_group(group_id_3).unwrap();

    assert_eq!(group1.id, 1);
    assert_eq!(group2.id, 2);
    assert_eq!(group3.id, 3);
}

#[test]
fn test_get_total_groups_created_with_multiple_admins() {
    let (mut client, admin1) = create_test_env();
    let admin2 = Address { id: 2 };

    create(&mut client, admin1, "Admin1 Group 1", 1000, 86400, 10);
    create(&mut client, admin2, "Admin2 Group 1", 2000, 172800, 20);
    create(&mut client, admin1, "Admin1 Group 2", 3000, 259200, 30);

    assert_eq!(client.get_total_groups_created(), 3);
}
