use fin_engine::{Amount, Career, CareerField, Job, JobLevel};

#[test]
fn test_job_level_requirements() {
    assert_eq!(JobLevel::Entry.min_experience(), 0);
    assert_eq!(JobLevel::Junior.min_experience(), 2);
    assert_eq!(JobLevel::Mid.min_experience(), 4);
    assert_eq!(JobLevel::Senior.min_experience(), 7);
    assert_eq!(JobLevel::Lead.min_experience(), 10);
}

#[test]
fn test_job_qualification() {
    let job = Job::new(
        "job1".to_string(),
        "Senior Developer".to_string(),
        CareerField::Technology,
        JobLevel::Senior,
        Amount::from_i64(80000),
        None,
    );

    assert!(!job.qualifies(5)); // 5 years < 7 required
    assert!(job.qualifies(7)); // exactly 7 years
    assert!(job.qualifies(10)); // more than enough
}

#[test]
fn test_career_progression() {
    let mut career = Career::new();
    assert!(!career.is_employed());
    assert_eq!(career.years_experience, 0);

    let job = Job::new(
        "job1".to_string(),
        "Junior Dev".to_string(),
        CareerField::Technology,
        JobLevel::Junior,
        Amount::from_i64(40000),
        None,
    );

    career.accept_job(job);
    assert!(career.is_employed());
    assert_eq!(career.monthly_salary(), Amount::from_i64(40000));

    // Advance 12 months
    for _ in 0..12 {
        career.advance_month();
    }

    assert_eq!(career.years_experience, 1);
    assert_eq!(career.months_in_current_job, 12);
}

#[test]
fn test_job_switching() {
    let mut career = Career::new();

    let job1 = Job::new(
        "job1".to_string(),
        "Junior Dev".to_string(),
        CareerField::Technology,
        JobLevel::Junior,
        Amount::from_i64(40000),
        None,
    );

    career.accept_job(job1);
    assert_eq!(career.job_history.len(), 0);

    let job2 = Job::new(
        "job2".to_string(),
        "Mid Dev".to_string(),
        CareerField::Technology,
        JobLevel::Mid,
        Amount::from_i64(60000),
        None,
    );

    career.accept_job(job2);
    assert_eq!(career.job_history.len(), 1);
    assert_eq!(career.monthly_salary(), Amount::from_i64(60000));
}

#[test]
fn test_max_qualified_level() {
    let mut career = Career::new();
    assert_eq!(career.max_qualified_level(), JobLevel::Entry);

    career.years_experience = 3;
    assert_eq!(career.max_qualified_level(), JobLevel::Junior);

    career.years_experience = 8;
    assert_eq!(career.max_qualified_level(), JobLevel::Senior);

    career.years_experience = 15;
    assert_eq!(career.max_qualified_level(), JobLevel::Lead);
}

#[test]
fn the_highest_level_changes_exactly_at_the_thresholds() {
    let expected = [
        (0, JobLevel::Entry),
        (1, JobLevel::Entry),
        (2, JobLevel::Junior),
        (3, JobLevel::Junior),
        (4, JobLevel::Mid),
        (6, JobLevel::Mid),
        (7, JobLevel::Senior),
        (9, JobLevel::Senior),
        (10, JobLevel::Lead),
        (255, JobLevel::Lead),
    ];
    for (years, level) in expected {
        let mut career = Career::new();
        career.years_experience = years;
        assert_eq!(career.max_qualified_level(), level);
    }
}

#[test]
fn the_history_keeps_left_jobs_oldest_first() {
    let mut career = Career::default();
    for (i, title) in ["first", "second", "third"].iter().enumerate() {
        career.accept_job(Job::new(
            format!("job{}", i),
            title.to_string(),
            CareerField::Other("Crafts".to_string()),
            JobLevel::Entry,
            Amount::from_i64(100),
            Some("Workshop".to_string()),
        ));
        career.advance_month();
    }
    assert_eq!(career.months_in_current_job, 1);
    career.quit_job();
    assert!(!career.is_employed());
    assert_eq!(career.months_in_current_job, 0);
    assert_eq!(career.monthly_salary(), Amount::zero());
    let titles: Vec<&str> = career.job_history.iter().map(|j| j.title.as_str()).collect();
    assert_eq!(titles, vec!["first", "second", "third"]);
    career.quit_job();
    assert_eq!(career.job_history.len(), 3);
    // Out of work, months do not count.
    career.advance_month();
    assert_eq!(career.months_in_current_job, 0);
    assert_eq!(career.years_experience, 0);
}

#[test]
fn levels_and_fields_have_their_names() {
    assert_eq!(
        JobLevel::all(),
        vec![
            JobLevel::Entry,
            JobLevel::Junior,
            JobLevel::Mid,
            JobLevel::Senior,
            JobLevel::Lead
        ]
    );
    let names: Vec<&str> = JobLevel::all().iter().map(|l| l.name()).collect();
    assert_eq!(names, vec!["Entry Level", "Junior", "Mid-Level", "Senior", "Lead"]);
    let fields: Vec<String> = CareerField::available_fields().iter().map(|f| f.name()).collect();
    assert_eq!(
        fields,
        vec!["Technology", "Finance", "Healthcare", "Education", "Retail", "Manufacturing"]
    );
    assert_eq!(CareerField::Other("Arts".to_string()).name(), "Arts");
    let job = Job::new(
        "j".to_string(),
        "J".to_string(),
        CareerField::Finance,
        JobLevel::Mid,
        Amount::from_i64(1),
        None,
    );
    assert_eq!(job.level_name(), "Mid-Level");
    assert_eq!(job.required_experience, 4);
    for (i, level) in JobLevel::all().iter().enumerate() {
        assert_eq!(level.ordinal() as usize, i);
    }
}
