use aocsuite::puzzle::{
    puzzle_release_at, today, today_day, valid_puzzle_release, valid_year_release,
    year_release_at, EasternTime, Exercise, PuzzleNotReleasedError,
};

fn at(year: i32, month: u32, day: u32, hour: u32, minute: u32, second: u32) -> EasternTime {
    EasternTime { year, month, day, hour, minute, second }
}

#[test]
fn exercise_is_written_as_its_number() {
    assert_eq!(Exercise::One.to_string(), "1");
    assert_eq!(Exercise::Two.to_string(), "2");
}

#[test]
fn puzzle_is_released_at_midnight_of_its_day() {
    assert_eq!(puzzle_release_at(1, 2024, &at(2024, 12, 1, 0, 0, 0)), Ok(()));
    assert_eq!(
        puzzle_release_at(1, 2024, &at(2024, 11, 30, 23, 59, 59)),
        Err(PuzzleNotReleasedError { day: 1, year: 2024 })
    );
    assert_eq!(puzzle_release_at(25, 2024, &at(2024, 12, 25, 0, 0, 0)), Ok(()));
    assert_eq!(
        puzzle_release_at(25, 2024, &at(2024, 12, 24, 23, 59, 59)),
        Err(PuzzleNotReleasedError { day: 25, year: 2024 })
    );
    assert_eq!(puzzle_release_at(25, 2015, &at(2024, 1, 1, 0, 0, 0)), Ok(()));
}

#[test]
fn days_and_years_outside_the_event_are_never_released() {
    let late = at(2100, 12, 31, 23, 59, 59);
    assert_eq!(
        puzzle_release_at(0, 2020, &late),
        Err(PuzzleNotReleasedError { day: 0, year: 2020 })
    );
    assert_eq!(
        puzzle_release_at(26, 2020, &late),
        Err(PuzzleNotReleasedError { day: 26, year: 2020 })
    );
    assert_eq!(
        puzzle_release_at(1, 2014, &late),
        Err(PuzzleNotReleasedError { day: 1, year: 2014 })
    );
    assert_eq!(puzzle_release_at(1, 2015, &late), Ok(()));
}

#[test]
fn year_is_open_once_its_december_day_is_reached() {
    let now = at(2024, 12, 3, 12, 0, 0);
    assert_eq!(year_release_at(3, 2024, &now), Ok(()));
    assert_eq!(
        year_release_at(4, 2024, &now),
        Err(PuzzleNotReleasedError { day: 4, year: 2024 })
    );
    assert_eq!(year_release_at(31, 2023, &now), Ok(()));
    assert_eq!(
        year_release_at(1, 2025, &now),
        Err(PuzzleNotReleasedError { day: 1, year: 2025 })
    );
    assert_eq!(
        year_release_at(1, 2014, &now),
        Err(PuzzleNotReleasedError { day: 1, year: 2014 })
    );
}

#[test]
fn not_released_message_names_day_and_year() {
    let e = PuzzleNotReleasedError { day: 7, year: 2031 };
    assert_eq!(e.message(), "Puzzle for 7 2031 has not been released yet.");
}

#[test]
fn clock_gives_a_calendar_moment() {
    let now = today();
    assert!(now.year >= 2024);
    assert!(1 <= now.month && now.month <= 12);
    assert!(1 <= now.day && now.day <= 31);
    assert!(now.hour < 24 && now.minute < 60 && now.second < 60);
    let day = today_day();
    assert!(1 <= day && day <= 31);
}

#[test]
fn release_checks_against_the_clock() {
    assert_eq!(valid_puzzle_release(1, 2015), Ok(()));
    assert_eq!(
        valid_puzzle_release(26, 2015),
        Err(PuzzleNotReleasedError { day: 26, year: 2015 })
    );
    assert_eq!(
        valid_puzzle_release(1, 9999),
        Err(PuzzleNotReleasedError { day: 1, year: 9999 })
    );
    assert_eq!(valid_year_release(1, 2015), Ok(()));
    assert_eq!(
        valid_year_release(1, 2014),
        Err(PuzzleNotReleasedError { day: 1, year: 2014 })
    );
}
