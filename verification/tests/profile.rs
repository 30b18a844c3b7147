use digital_server::profile::{jobs_by_company, profile_image_object, JobInCompany, JobInfo};

fn row(company: &str, url: &str, title: &str, span: &str, desc: Option<Vec<&str>>) -> JobInfo {
    JobInfo {
        company_name: company.to_string(),
        company_url: url.to_string(),
        job_title: title.to_string(),
        time_span: span.to_string(),
        description: desc.map(|d| d.into_iter().map(|s| s.to_string()).collect()),
    }
}

fn job(title: &str, span: &str, desc: Option<Vec<&str>>) -> JobInCompany {
    JobInCompany {
        job_title: title.to_string(),
        time_span: span.to_string(),
        description: desc.map(|d| d.into_iter().map(|s| s.to_string()).collect()),
    }
}

#[test]
fn groups_jobs_by_company_in_first_appearance_order() {
    let rows = vec![
        row("Acme", "https://acme.example", "Lead", "2023-2024", Some(vec!["led", "shipped"])),
        row("Globex", "https://globex.example", "Dev", "2021-2023", None),
        row("Acme", "https://acme.other", "Engineer", "2020-2021", Some(vec![])),
        row("Initech", "https://initech.example", "Intern", "2019", None),
        row("Globex", "https://globex.example", "Junior", "2018", Some(vec!["tests"])),
    ];
    let groups = jobs_by_company(rows);
    assert_eq!(groups.len(), 3);
    assert_eq!(groups[0].company_name, "Acme");
    assert_eq!(groups[0].company_url, "https://acme.example");
    assert_eq!(
        groups[0].job_in_company,
        vec![
            job("Lead", "2023-2024", Some(vec!["led", "shipped"])),
            job("Engineer", "2020-2021", Some(vec![])),
        ]
    );
    assert_eq!(groups[1].company_name, "Globex");
    assert_eq!(
        groups[1].job_in_company,
        vec![job("Dev", "2021-2023", None), job("Junior", "2018", Some(vec!["tests"]))]
    );
    assert_eq!(groups[2].company_name, "Initech");
    assert_eq!(groups[2].job_in_company, vec![job("Intern", "2019", None)]);
}

#[test]
fn grouping_keeps_every_job() {
    let rows: Vec<JobInfo> = (0..20)
        .map(|i| row(&format!("C{}", i % 3), "u", &format!("job{}", i), "t", None))
        .collect();
    let groups = jobs_by_company(rows);
    let total: usize = groups.iter().map(|g| g.job_in_company.len()).sum();
    assert_eq!(total, 20);
    let names: Vec<&str> = groups.iter().map(|g| g.company_name.as_str()).collect();
    assert_eq!(names, vec!["C0", "C1", "C2"]);
    assert_eq!(groups[1].job_in_company[0].job_title, "job1");
    assert_eq!(groups[1].job_in_company[6].job_title, "job19");
}

#[test]
fn grouping_no_rows() {
    assert!(jobs_by_company(Vec::new()).is_empty());
}

#[test]
fn profile_picture_location() {
    let o = profile_image_object();
    assert_eq!(o.bucket, "misc");
    assert_eq!(o.key, "profile.jpg");
    assert_eq!(o.expires_in_secs, 3600);
}
