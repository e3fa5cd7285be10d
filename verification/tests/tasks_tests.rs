use valqeron::common::UniqueIdentifier;
use valqeron::tasks::{
    BackgroundTaskBuilder, BackgroundTaskName, BackgroundTaskNameError, Pending, Running,
    ScheduledBackgroundTask, Success, TaskBuilderError, BACKGROUND_TASK_NAME_MAX_CHARACTERS,
};

const TEST_TASK_NAME: &str = "test_task";

#[test]
fn background_tasks_test_task_name_max_length() {
    let name = BackgroundTaskName::new(
        &"TEST_TASK_NAME".repeat(BACKGROUND_TASK_NAME_MAX_CHARACTERS + 1),
    );
    assert!(name.is_err());
    assert!(matches!(
        name.unwrap_err(),
        BackgroundTaskNameError::TooLong { max: _ }
    ))
}

#[test]
fn background_tasks_test_task_name_empty() {
    let name = BackgroundTaskName::new("");
    assert!(name.is_err());
    assert!(matches!(name.unwrap_err(), BackgroundTaskNameError::Empty));
}

#[test]
fn background_tasks_test_task_name_trim_spaces() {
    let name = BackgroundTaskName::new(&format!("  {}  ", TEST_TASK_NAME));
    assert!(name.is_ok());
    assert_eq!(name.unwrap().as_str(), TEST_TASK_NAME);
}

#[test]
fn background_tasks_test_task_name_trim_newlines() {
    let name = BackgroundTaskName::new(&format!("\n{}\n", TEST_TASK_NAME));
    assert!(name.is_ok());
    assert_eq!(name.unwrap().as_str(), TEST_TASK_NAME);
}

#[test]
fn background_tasks_test_task_name_trim_tabs() {
    let name = BackgroundTaskName::new(&format!("\t{}\t", TEST_TASK_NAME));
    assert!(name.is_ok());
    assert_eq!(name.unwrap().as_str(), TEST_TASK_NAME);
}

#[test]
fn background_tasks_test_task_builder_builds_successfully() {
    let id = UniqueIdentifier::new();
    let name = BackgroundTaskName::new(TEST_TASK_NAME).unwrap();

    let task_1 = BackgroundTaskBuilder::new()
        .id(id)
        .name(name)
        .build()
        .unwrap();

    assert_eq!(task_1.name().as_str(), TEST_TASK_NAME);
    assert_eq!(*task_1.id(), id);
}

#[test]
fn background_tasks_test_task_builder_zero_attempts_fails() {
    let id = UniqueIdentifier::new();
    let name = BackgroundTaskName::new(TEST_TASK_NAME).unwrap();

    let res = BackgroundTaskBuilder::new()
        .id(id)
        .name(name)
        .max_attempts(0)
        .build();

    assert!(matches!(res.unwrap_err(), TaskBuilderError::ZeroMaxAttempts));
}

#[test]
fn background_tasks_test_task_successful_lifecycle() {
    let id = UniqueIdentifier::new();
    let name = BackgroundTaskName::new(TEST_TASK_NAME).unwrap();

    let task: ScheduledBackgroundTask<Pending> = BackgroundTaskBuilder::new()
        .id(id)
        .name(name)
        .max_attempts(3)
        .build()
        .unwrap();

    assert_eq!(task.current_attempt(), 0);

    let task: ScheduledBackgroundTask<Running> = task.start();
    assert_eq!(task.current_attempt(), 1);

    let task: ScheduledBackgroundTask<Success> = task.complete("done");
    assert_eq!(task.output(), "done");
}

#[test]
fn background_tasks_test_task_retry_and_fail_lifecycle() {
    let id = UniqueIdentifier::new();
    let name = BackgroundTaskName::new(TEST_TASK_NAME).unwrap();

    // 2 maximum execution attempts total
    let task = BackgroundTaskBuilder::new()
        .id(id)
        .name(name)
        .max_attempts(2)
        .build()
        .unwrap();

    // First attempt
    let task = task.start();
    assert_eq!(task.current_attempt(), 1);

    // Fails but yields a Retrying state because max_attempts is 2
    let task = task.fail("first failure").unwrap();
    assert_eq!(task.last_error(), "first failure");

    // Second attempt
    let task = task.start();
    assert_eq!(task.current_attempt(), 2);

    // Fails completely because we reached max_attempts
    let final_err = task.fail("second failure").unwrap_err();
    assert_eq!(final_err.error(), "second failure");
}

#[test]
fn tasks_test_task_name_max_length() {
    let max_len = BACKGROUND_TASK_NAME_MAX_CHARACTERS.saturating_add(1);
    let name = BackgroundTaskName::new(&"TEST_TASK_NAME".repeat(max_len));
    assert!(matches!(name, Err(BackgroundTaskNameError::TooLong { max: _ })));
}

#[test]
fn tasks_test_task_name_empty() {
    let name = BackgroundTaskName::new("");
    assert!(matches!(name, Err(BackgroundTaskNameError::Empty)));
}

#[test]
fn tasks_test_task_name_trim_spaces() {
    let name = BackgroundTaskName::new(&format!("  {TEST_TASK_NAME}  "));
    assert_eq!(
        name.as_ref().map(BackgroundTaskName::as_str),
        Ok(TEST_TASK_NAME)
    );
}

#[test]
fn tasks_test_task_name_trim_newlines() {
    let name = BackgroundTaskName::new(&format!("\n{TEST_TASK_NAME}\n"));
    assert_eq!(
        name.as_ref().map(BackgroundTaskName::as_str),
        Ok(TEST_TASK_NAME)
    );
}

#[test]
fn tasks_test_task_name_trim_tabs() {
    let name = BackgroundTaskName::new(&format!("\t{TEST_TASK_NAME}\t"));
    assert_eq!(
        name.as_ref().map(BackgroundTaskName::as_str),
        Ok(TEST_TASK_NAME)
    );
}

#[test]
fn tasks_test_task_builder_builds_successfully() {
    let id = UniqueIdentifier::new();
    let name_res = BackgroundTaskName::new(TEST_TASK_NAME);
    assert!(matches!(name_res, Ok(_)));

    if let Ok(name) = name_res {
        let task_res = BackgroundTaskBuilder::new().id(id).name(name).build();

        assert!(matches!(
            task_res,
            Ok(ref task_1) if task_1.name().as_str() == TEST_TASK_NAME && *task_1.id() == id
        ));
    }
}

#[test]
fn tasks_test_task_builder_zero_attempts_fails() {
    let id = UniqueIdentifier::new();
    let name_res = BackgroundTaskName::new(TEST_TASK_NAME);
    assert!(matches!(name_res, Ok(_)));

    if let Ok(name) = name_res {
        let res = BackgroundTaskBuilder::new()
            .id(id)
            .name(name)
            .max_attempts(0)
            .build();

        assert!(matches!(res, Err(TaskBuilderError::ZeroMaxAttempts)));
    }
}

#[test]
fn tasks_test_task_successful_lifecycle() {
    let id = UniqueIdentifier::new();
    let name_res = BackgroundTaskName::new(TEST_TASK_NAME);
    assert!(matches!(name_res, Ok(_)));

    if let Ok(name) = name_res {
        let task_res = BackgroundTaskBuilder::new()
            .id(id)
            .name(name)
            .max_attempts(3)
            .build();

        assert!(matches!(task_res, Ok(_)));

        if let Ok(task) = task_res {
            assert_eq!(task.current_attempt(), 0);

            let task: ScheduledBackgroundTask<Running> = task.start();
            assert_eq!(task.current_attempt(), 1);

            let task: ScheduledBackgroundTask<Success> = task.complete("done");
            assert_eq!(task.output(), "done");
        }
    }
}

#[test]
fn tasks_test_task_retry_and_fail_lifecycle() {
    let id = UniqueIdentifier::new();
    let name_res = BackgroundTaskName::new(TEST_TASK_NAME);
    assert!(matches!(name_res, Ok(_)));

    if let Ok(name) = name_res {
        let task_res = BackgroundTaskBuilder::new()
            .id(id)
            .name(name)
            .max_attempts(2)
            .build();

        assert!(matches!(task_res, Ok(_)));

        if let Ok(task) = task_res {
            // First attempt
            let task = task.start();
            assert_eq!(task.current_attempt(), 1);

            // Fails but yields a Retrying state because max_attempts is 2
            let retry_res = task.fail("first failure");
            assert!(matches!(retry_res, Ok(_)));

            if let Ok(task) = retry_res {
                assert_eq!(task.last_error(), "first failure");

                // Second attempt
                let task = task.start();
                assert_eq!(task.current_attempt(), 2);

                // Fails completely because we reached max_attempts
                let fail_res = task.fail("second failure");
                assert!(matches!(fail_res, Err(_)));

                if let Err(final_err) = fail_res {
                    assert_eq!(final_err.error(), "second failure");
                }
            }
        }
    }
}

