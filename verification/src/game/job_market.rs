//! The jobs on offer, by market and by what the player qualifies for.

use crate::amount::Amount;
use crate::game::career::{Career, CareerField, Job, JobLevel};
use vstd::prelude::*;

verus! {

/// Whether the job is the one described: by identifier, title, the name of
/// its field, level, salary in whole units, and employer.
pub open spec fn is_offer(
    job: Job,
    id: Seq<char>,
    title: Seq<char>,
    field: Seq<char>,
    level: JobLevel,
    salary: int,
    company: Seq<char>,
) -> bool {
    &&& job.id@ == id
    &&& job.title@ == title
    &&& job.field.title() == field
    &&& job.level == level
    &&& job.monthly_salary == Amount::whole(salary)
    &&& job.required_experience == level.threshold()
    &&& job.company is Some
    &&& job.company->Some_0@ == company
}

/// A job on offer, with its salary in whole units.
fn offer(id: &str, title: &str, field: CareerField, level: JobLevel, salary: i64, company: &str) -> (r:
    Job)
    ensures
        is_offer(r, id@, title@, field.title(), level, salary as int, company@),
        r.field == field,
{
    Job::new(
        id.to_string(),
        title.to_string(),
        field,
        level,
        Amount::from_i64(salary),
        Some(company.to_string()),
    )
}

/// Whether the jobs are the entry jobs of the Czech market, in order.
pub open spec fn czech_entry_offers(jobs: Seq<Job>) -> bool {
    &&& jobs.len() == 3
    &&& is_offer(
        jobs[0],
        "cz_retail_entry"@,
        "Sales Associate"@,
        "Retail"@,
        JobLevel::Entry,
        25000,
        "Local Store"@,
    )
    &&& jobs[0].field is Retail
    &&& is_offer(
        jobs[1],
        "cz_admin_entry"@,
        "Administrative Assistant"@,
        "Administration"@,
        JobLevel::Entry,
        28000,
        "Office Corp"@,
    )
    &&& jobs[1].field is Other
    &&& is_offer(
        jobs[2],
        "cz_tech_entry"@,
        "Junior IT Support"@,
        "Technology"@,
        JobLevel::Entry,
        32000,
        "Tech Solutions s.r.o."@,
    )
    &&& jobs[2].field is Technology
}

/// Whether the jobs are the junior jobs of the Czech market, in order.
pub open spec fn czech_junior_offers(jobs: Seq<Job>) -> bool {
    &&& jobs.len() == 3
    &&& is_offer(
        jobs[0],
        "cz_dev_junior"@,
        "Junior Software Developer"@,
        "Technology"@,
        JobLevel::Junior,
        45000,
        "CodeCraft Prague"@,
    )
    &&& jobs[0].field is Technology
    &&& is_offer(
        jobs[1],
        "cz_accountant_junior"@,
        "Junior Accountant"@,
        "Finance"@,
        JobLevel::Junior,
        38000,
        "Finance Group"@,
    )
    &&& jobs[1].field is Finance
    &&& is_offer(
        jobs[2],
        "cz_teacher_junior"@,
        "Elementary School Teacher"@,
        "Education"@,
        JobLevel::Junior,
        35000,
        "Praha Elementary"@,
    )
    &&& jobs[2].field is Education
}

/// Whether the jobs are the mid-level jobs of the Czech market, in order.
pub open spec fn czech_mid_offers(jobs: Seq<Job>) -> bool {
    &&& jobs.len() == 4
    &&& is_offer(
        jobs[0],
        "cz_dev_mid"@,
        "Software Developer"@,
        "Technology"@,
        JobLevel::Mid,
        65000,
        "TechCorp Prague"@,
    )
    &&& jobs[0].field is Technology
    &&& is_offer(
        jobs[1],
        "cz_accountant_mid"@,
        "Accountant"@,
        "Finance"@,
        JobLevel::Mid,
        52000,
        "KPMG Czech"@,
    )
    &&& jobs[1].field is Finance
    &&& is_offer(
        jobs[2],
        "cz_manager_mid"@,
        "Team Manager"@,
        "Manufacturing"@,
        JobLevel::Mid,
        58000,
        "Škoda Auto"@,
    )
    &&& jobs[2].field is Manufacturing
    &&& is_offer(
        jobs[3],
        "cz_nurse_mid"@,
        "Registered Nurse"@,
        "Healthcare"@,
        JobLevel::Mid,
        48000,
        "Motol Hospital"@,
    )
    &&& jobs[3].field is Healthcare
}

/// Whether the jobs are the senior jobs of the Czech market, in order.
pub open spec fn czech_senior_offers(jobs: Seq<Job>) -> bool {
    &&& jobs.len() == 3
    &&& is_offer(
        jobs[0],
        "cz_dev_senior"@,
        "Senior Software Engineer"@,
        "Technology"@,
        JobLevel::Senior,
        90000,
        "Avast Software"@,
    )
    &&& jobs[0].field is Technology
    &&& is_offer(
        jobs[1],
        "cz_accountant_senior"@,
        "Senior Financial Analyst"@,
        "Finance"@,
        JobLevel::Senior,
        75000,
        "Česká spořitelna"@,
    )
    &&& jobs[1].field is Finance
    &&& is_offer(
        jobs[2],
        "cz_doctor_senior"@,
        "Specialist Physician"@,
        "Healthcare"@,
        JobLevel::Senior,
        85000,
        "General Hospital Prague"@,
    )
    &&& jobs[2].field is Healthcare
}

/// Whether the jobs are the lead jobs of the Czech market, in order.
pub open spec fn czech_lead_offers(jobs: Seq<Job>) -> bool {
    &&& jobs.len() == 3
    &&& is_offer(
        jobs[0],
        "cz_arch_lead"@,
        "Lead Software Architect"@,
        "Technology"@,
        JobLevel::Lead,
        120000,
        "O2 Czech Republic"@,
    )
    &&& jobs[0].field is Technology
    &&& is_offer(
        jobs[1],
        "cz_cfo_lead"@,
        "Finance Director"@,
        "Finance"@,
        JobLevel::Lead,
        110000,
        "Česká pojišťovna"@,
    )
    &&& jobs[1].field is Finance
    &&& is_offer(
        jobs[2],
        "cz_director_lead"@,
        "Operations Director"@,
        "Manufacturing"@,
        JobLevel::Lead,
        100000,
        "ČEZ Group"@,
    )
    &&& jobs[2].field is Manufacturing
}

/// The years of experience from which the Czech market offers jobs of a level.
pub open spec fn offered_from(level: JobLevel) -> int {
    match level {
        JobLevel::Entry => 0,
        JobLevel::Junior => 1,
        JobLevel::Mid => 3,
        JobLevel::Senior => 6,
        JobLevel::Lead => 9,
    }
}

/// The lowest level that is shown to someone with the years of experience:
/// junior from two years on, entry before.
pub open spec fn lowest_shown(years: int) -> JobLevel {
    if years >= 2 {
        JobLevel::Junior
    } else {
        JobLevel::Entry
    }
}

/// Whether jobs of a level are shown to someone with the years of
/// experience: the market offers them, and the level lies between the lowest
/// shown and one step above the highest the experience reaches.
pub open spec fn shown(years: int, level: JobLevel) -> bool {
    &&& years >= offered_from(level)
    &&& lowest_shown(years).rank() <= level.rank()
    &&& level.rank() <= JobLevel::highest_for(years).rank() + 1
}

/// Whether the jobs are those of a level where they are shown, and none where they are not.
pub open spec fn part_of_level(jobs: Seq<Job>, years: int, level: JobLevel) -> bool {
    if shown(years, level) {
        match level {
            JobLevel::Entry => czech_entry_offers(jobs),
            JobLevel::Junior => czech_junior_offers(jobs),
            JobLevel::Mid => czech_mid_offers(jobs),
            JobLevel::Senior => czech_senior_offers(jobs),
            JobLevel::Lead => czech_lead_offers(jobs),
        }
    } else {
        jobs.len() == 0
    }
}

/// Whether the jobs are what the Czech market shows to someone with the
/// years of experience: the jobs of each level that is shown, from entry to
/// lead.
pub open spec fn czech_offers_for(jobs: Seq<Job>, years: int) -> bool {
    exists|entry: Seq<Job>, junior: Seq<Job>, mid: Seq<Job>, senior: Seq<Job>, lead: Seq<Job>|
        {
            &&& #[trigger] part_of_level(entry, years, JobLevel::Entry)
            &&& #[trigger] part_of_level(junior, years, JobLevel::Junior)
            &&& #[trigger] part_of_level(mid, years, JobLevel::Mid)
            &&& #[trigger] part_of_level(senior, years, JobLevel::Senior)
            &&& #[trigger] part_of_level(lead, years, JobLevel::Lead)
            &&& jobs == entry + junior + mid + senior + lead
        }
}

/// The jobs on offer in a market.
#[derive(Debug, Clone, Copy)]
pub struct JobMarket;

impl JobMarket {
    /// The jobs that the Czech market shows to someone with the given career.
    ///
    /// Entry jobs are offered to everyone, junior jobs from one year of
    /// experience, mid-level jobs from three, senior jobs from six and lead
    /// jobs from nine. Of these the levels are shown that lie between the
    /// lowest shown level and one step above the highest level that the
    /// experience reaches.
    pub fn generate_czech_jobs(career: &Career) -> (r: Vec<Job>)
        ensures
            czech_offers_for(r@, career.years_experience as int),
            forall|i: int| 0 <= i < r@.len() ==> shown(career.years_experience as int, r@[i].level),
    {
        let experience = career.years_experience;
        let highest = career.max_qualified_level().ordinal();
        let lowest: u8 = if experience >= 2 {
            1
        } else {
            0
        };
        let mut jobs: Vec<Job> = Vec::new();
        let ghost years = experience as int;
        let mut entry = if lowest <= 0 {
            Self::czech_entry_jobs()
        } else {
            Vec::new()
        };
        let mut junior = if experience >= 1 && lowest <= 1 && 1 <= highest + 1 {
            Self::czech_junior_jobs()
        } else {
            Vec::new()
        };
        let mut mid = if experience >= 3 && 2 <= highest + 1 {
            Self::czech_mid_jobs()
        } else {
            Vec::new()
        };
        let mut senior = if experience >= 6 && 3 <= highest + 1 {
            Self::czech_senior_jobs()
        } else {
            Vec::new()
        };
        let mut lead = if experience >= 9 && 4 <= highest + 1 {
            Self::czech_lead_jobs()
        } else {
            Vec::new()
        };
        let ghost parts = (entry@, junior@, mid@, senior@, lead@);
        proof {
            assert(part_of_level(parts.0, years, JobLevel::Entry));
            assert(part_of_level(parts.1, years, JobLevel::Junior));
            assert(part_of_level(parts.2, years, JobLevel::Mid));
            assert(part_of_level(parts.3, years, JobLevel::Senior));
            assert(part_of_level(parts.4, years, JobLevel::Lead));
        }
        jobs.append(&mut entry);
        jobs.append(&mut junior);
        jobs.append(&mut mid);
        jobs.append(&mut senior);
        jobs.append(&mut lead);
        proof {
            assert(jobs@ =~= parts.0 + parts.1 + parts.2 + parts.3 + parts.4);
        }
        jobs
    }

    /// The entry jobs of the Czech market.
    fn czech_entry_jobs() -> (r: Vec<Job>)
        ensures
            czech_entry_offers(r@),
    {
        let mut jobs: Vec<Job> = Vec::new();
        jobs.push(
            offer(
                "cz_retail_entry",
                "Sales Associate",
                CareerField::Retail,
                JobLevel::Entry,
                25000,
                "Local Store",
            ),
        );
        jobs.push(
            offer(
                "cz_admin_entry",
                "Administrative Assistant",
                CareerField::Other("Administration".to_string()),
                JobLevel::Entry,
                28000,
                "Office Corp",
            ),
        );
        jobs.push(
            offer(
                "cz_tech_entry",
                "Junior IT Support",
                CareerField::Technology,
                JobLevel::Entry,
                32000,
                "Tech Solutions s.r.o.",
            ),
        );
        jobs
    }

    /// The junior jobs of the Czech market.
    fn czech_junior_jobs() -> (r: Vec<Job>)
        ensures
            czech_junior_offers(r@),
    {
        let mut jobs: Vec<Job> = Vec::new();
        jobs.push(
            offer(
                "cz_dev_junior",
                "Junior Software Developer",
                CareerField::Technology,
                JobLevel::Junior,
                45000,
                "CodeCraft Prague",
            ),
        );
        jobs.push(
            offer(
                "cz_accountant_junior",
                "Junior Accountant",
                CareerField::Finance,
                JobLevel::Junior,
                38000,
                "Finance Group",
            ),
        );
        jobs.push(
            offer(
                "cz_teacher_junior",
                "Elementary School Teacher",
                CareerField::Education,
                JobLevel::Junior,
                35000,
                "Praha Elementary",
            ),
        );
        jobs
    }

    /// The mid-level jobs of the Czech market.
    fn czech_mid_jobs() -> (r: Vec<Job>)
        ensures
            czech_mid_offers(r@),
    {
        let mut jobs: Vec<Job> = Vec::new();
        jobs.push(
            offer(
                "cz_dev_mid",
                "Software Developer",
                CareerField::Technology,
                JobLevel::Mid,
                65000,
                "TechCorp Prague",
            ),
        );
        jobs.push(
            offer(
                "cz_accountant_mid",
                "Accountant",
                CareerField::Finance,
                JobLevel::Mid,
                52000,
                "KPMG Czech",
            ),
        );
        jobs.push(
            offer(
                "cz_manager_mid",
                "Team Manager",
                CareerField::Manufacturing,
                JobLevel::Mid,
                58000,
                "Škoda Auto",
            ),
        );
        jobs.push(
            offer(
                "cz_nurse_mid",
                "Registered Nurse",
                CareerField::Healthcare,
                JobLevel::Mid,
                48000,
                "Motol Hospital",
            ),
        );
        jobs
    }

    /// The senior jobs of the Czech market.
    fn czech_senior_jobs() -> (r: Vec<Job>)
        ensures
            czech_senior_offers(r@),
    {
        let mut jobs: Vec<Job> = Vec::new();
        jobs.push(
            offer(
                "cz_dev_senior",
                "Senior Software Engineer",
                CareerField::Technology,
                JobLevel::Senior,
                90000,
                "Avast Software",
            ),
        );
        jobs.push(
            offer(
                "cz_accountant_senior",
                "Senior Financial Analyst",
                CareerField::Finance,
                JobLevel::Senior,
                75000,
                "Česká spořitelna",
            ),
        );
        jobs.push(
            offer(
                "cz_doctor_senior",
                "Specialist Physician",
                CareerField::Healthcare,
                JobLevel::Senior,
                85000,
                "General Hospital Prague",
            ),
        );
        jobs
    }

    /// The lead jobs of the Czech market.
    fn czech_lead_jobs() -> (r: Vec<Job>)
        ensures
            czech_lead_offers(r@),
    {
        let mut jobs: Vec<Job> = Vec::new();
        jobs.push(
            offer(
                "cz_arch_lead",
                "Lead Software Architect",
                CareerField::Technology,
                JobLevel::Lead,
                120000,
                "O2 Czech Republic",
            ),
        );
        jobs.push(
            offer(
                "cz_cfo_lead",
                "Finance Director",
                CareerField::Finance,
                JobLevel::Lead,
                110000,
                "Česká pojišťovna",
            ),
        );
        jobs.push(
            offer(
                "cz_director_lead",
                "Operations Director",
                CareerField::Manufacturing,
                JobLevel::Lead,
                100000,
                "ČEZ Group",
            ),
        );
        jobs
    }
}

} // verus!
