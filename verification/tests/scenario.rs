//! Canonical scenario settings and step checks.

use cogniform::scenario::{
    center_color, center_entity, center_index, check_center_color, check_center_entity,
    check_initial_receipt, check_query_result, scenario_step, ScenarioEvent, ScenarioStage, CAMERA_ID, LIGHT_ID, ROOM_ID, TABLE_ID, check_observation_metadata, check_starting_revision,
    check_update_receipt, table_visibility, validate_scenario_config, CanonicalScenarioConfig,
    CanonicalScenarioError, MAX_OBSERVATION_TIMEOUT_NANOS,
};

fn contract(reason: &'static str) -> CanonicalScenarioError {
    CanonicalScenarioError::Contract { reason }
}

#[test]
fn zero_observation_timeout_is_rejected() {
    assert!(matches!(
        validate_scenario_config(CanonicalScenarioConfig { observation_timeout_nanos: 0 }),
        Err(CanonicalScenarioError::InvalidObservationTimeout)
    ));
}

#[test]
fn excessive_observation_timeout_is_rejected() {
    assert!(matches!(
        validate_scenario_config(CanonicalScenarioConfig {
            observation_timeout_nanos: MAX_OBSERVATION_TIMEOUT_NANOS + 1,
        }),
        Err(CanonicalScenarioError::InvalidObservationTimeout)
    ));
}

#[test]
fn default_and_boundary_timeouts_are_accepted() {
    assert_eq!(validate_scenario_config(CanonicalScenarioConfig::default()), Ok(()));
    assert_eq!(
        CanonicalScenarioConfig::default().observation_timeout_nanos,
        10_000_000_000
    );
    assert_eq!(
        validate_scenario_config(CanonicalScenarioConfig { observation_timeout_nanos: 1 }),
        Ok(())
    );
    assert_eq!(
        validate_scenario_config(CanonicalScenarioConfig {
            observation_timeout_nanos: MAX_OBSERVATION_TIMEOUT_NANOS,
        }),
        Ok(())
    );
}

#[test]
fn receipts_must_describe_the_two_canonical_revisions() {
    assert_eq!(check_starting_revision(0), Ok(()));
    assert_eq!(
        check_starting_revision(3),
        Err(CanonicalScenarioError::NonEmptyService { revision: 3 })
    );
    assert_eq!(check_initial_receipt(0, 1), Ok(()));
    assert_eq!(
        check_initial_receipt(0, 2),
        Err(contract("initial patch did not commit revision 1"))
    );
    assert_eq!(check_update_receipt(1, 1, 2, 2), Ok(()));
    assert_eq!(
        check_update_receipt(1, 1, 2, 1),
        Err(contract("table move and restyle did not commit atomically at revision 2"))
    );
}

#[test]
fn center_index_uses_the_middle_row_and_column() {
    assert_eq!(center_index(4, 3, 12), Ok(6));
    assert_eq!(center_index(1, 1, 1), Ok(0));
    assert_eq!(
        center_index(4, 3, 11),
        Err(contract("observation payload length does not match its dimensions"))
    );
}

#[test]
fn center_pixels_are_read_from_matching_payloads() {
    let pixels = vec![[0, 0, 0, 0], [55, 30, 11, 255], [1, 1, 1, 1], [2, 2, 2, 2]];
    assert_eq!(center_color(Some((2, 2)), &pixels), Ok([2, 2, 2, 2]));
    assert_eq!(
        center_color(None, &pixels),
        Err(contract("color observation has no image dimensions"))
    );
    let entities = vec![None, Some(0x200), None];
    assert_eq!(center_entity(Some((3, 1)), &entities), Ok(0x200));
    assert_eq!(
        center_entity(Some((3, 1)), &[Some(1), None, Some(2)]),
        Err(contract("entity-ID observation center pixel is background"))
    );
    assert_eq!(check_center_entity(0x200, 0x200), Ok(()));
    assert_eq!(
        check_center_entity(0x100, 0x200),
        Err(contract("entity-ID observation center pixel is not the table"))
    );
}

#[test]
fn center_color_tolerates_two_levels_per_channel() {
    assert_eq!(check_center_color([55, 30, 11, 255]), Ok(()));
    assert_eq!(check_center_color([57, 28, 13, 253]), Ok(()));
    assert_eq!(
        check_center_color([58, 30, 11, 255]),
        Err(contract("color observation center pixel violates canonical point lighting"))
    );
    assert_eq!(
        check_center_color([55, 30, 11, 0]),
        Err(contract("color observation center pixel violates canonical point lighting"))
    );
}

#[test]
fn table_visibility_requires_a_visible_table_entry() {
    assert_eq!(table_visibility(&[(0x100, 40), (0x200, 12), (0x200, 3)], 0x200), Ok(12));
    assert_eq!(
        table_visibility(&[(0x100, 40)], 0x200),
        Err(contract("visibility summary does not contain the table"))
    );
    assert_eq!(
        table_visibility(&[(0x200, 0)], 0x200),
        Err(contract("visibility summary reports zero table pixels"))
    );
}

#[test]
fn observation_metadata_must_echo_the_request() {
    assert_eq!(check_observation_metadata((1, 2, 3), (1, 2, 3), 2, 2, 0), Ok(()));
    let mismatch = Err(contract("observation metadata does not match its request and revision"));
    assert_eq!(check_observation_metadata((1, 2, 3), (1, 2, 4), 2, 2, 0), mismatch);
    assert_eq!(check_observation_metadata((1, 2, 3), (1, 2, 3), 2, 1, 0), mismatch);
    assert_eq!(check_observation_metadata((1, 2, 3), (1, 2, 3), 2, 2, 1), mismatch);
}

#[test]
fn exact_revision_query_must_return_the_four_entities_and_the_restyled_table() {
    let ids = [ROOM_ID, TABLE_ID, LIGHT_ID, CAMERA_ID];
    assert_eq!(
        check_query_result(&ids, &[false, true, false, false], TABLE_ID),
        Ok(4)
    );
    assert_eq!(
        check_query_result(&ids, &[true, false, true, true], TABLE_ID),
        Err(contract(
            "exact-revision query did not return the moved and restyled table"
        ))
    );
    assert_eq!(
        check_query_result(&ids[..3], &[true, true, true], TABLE_ID),
        Err(contract(
            "exact-revision query did not return all four canonical entities"
        ))
    );
    assert_eq!(
        check_query_result(
            &[TABLE_ID, ROOM_ID, LIGHT_ID, CAMERA_ID],
            &[true, true, true, true],
            TABLE_ID
        ),
        Err(contract(
            "exact-revision query returned unexpected canonical identities"
        ))
    );
    assert_eq!(
        check_query_result(&ids, &[true, true, true, true], 0x999),
        Err(contract("exact-revision query did not return the table"))
    );
}

#[test]
fn scenario_steps_check_each_result_in_order() {
    let events = [
        (ScenarioStage::Start, ScenarioEvent::Started { revision: 0 }, ScenarioStage::InitialPatch),
        (
            ScenarioStage::InitialPatch,
            ScenarioEvent::InitialApplied { previous_revision: 0, new_revision: 1 },
            ScenarioStage::UpdatePatch,
        ),
        (
            ScenarioStage::UpdatePatch,
            ScenarioEvent::UpdateApplied { previous_revision: 1, new_revision: 2, operation_count: 2 },
            ScenarioStage::Query,
        ),
        (
            ScenarioStage::Query,
            ScenarioEvent::Queried {
                ids: vec![ROOM_ID, TABLE_ID, LIGHT_ID, CAMERA_ID],
                restyled: vec![false, true, false, false],
            },
            ScenarioStage::Color,
        ),
        (ScenarioStage::Color, ScenarioEvent::ColorCenter([56, 29, 11, 255]), ScenarioStage::Entity),
        (ScenarioStage::Entity, ScenarioEvent::EntityCenter(TABLE_ID), ScenarioStage::Visibility),
        (
            ScenarioStage::Visibility,
            ScenarioEvent::VisibilityCounts(vec![(ROOM_ID, 10), (TABLE_ID, 4)]),
            ScenarioStage::Replay,
        ),
    ];
    for (stage, event, next) in events.iter() {
        assert_eq!(scenario_step(*stage, event), Ok(*next));
    }
    assert_eq!(
        scenario_step(ScenarioStage::Start, &ScenarioEvent::Started { revision: 3 }),
        Err(CanonicalScenarioError::NonEmptyService { revision: 3 })
    );
    assert_eq!(
        scenario_step(
            ScenarioStage::UpdatePatch,
            &ScenarioEvent::UpdateApplied { previous_revision: 1, new_revision: 2, operation_count: 1 }
        ),
        Err(contract("table move and restyle did not commit atomically at revision 2"))
    );
    assert_eq!(
        scenario_step(ScenarioStage::Visibility, &ScenarioEvent::VisibilityCounts(vec![(TABLE_ID, 0)])),
        Err(contract("visibility summary reports zero table pixels"))
    );
}
