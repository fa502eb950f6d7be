use auth::clock::{Timestamp, CALENDAR_MAX_SECS, MAX_SECS};
use auth::common::verify_password;
use auth::entities::credentials::sqlite::{SqliteCredentialsDAO, SqliteCredentialsRepository};
use auth::entities::credentials::{CreateCredentialsDAO, CredentialsBy};
use auth::entities::sessions::sqlite::{SqliteSessionsDAO, SqliteSessionsRepository};
use auth::entities::sessions::SessionsDAO;
use auth::error::{DriverError, ServerError};
use auth::handlers::dto::{CreateCredentialDTO, CredentialDTO, SignInDTO};
use auth::handlers::sign_in::{
    sign_in, SessionCookie, SignInAction, SignInEvent, SignInState, ONE_DAY_IN_SECONDS,
};
use auth::handlers::sign_up::{sign_up, SignUpAction, SignUpEvent, SignUpState};
use auth::ident::Uuid;
use auth::repository::EntityRepository;
use auth::statement::{Fetch, SqlValue, Statement};
use auth::transaction::{
    AuthDatabase, BaseDatabase, TransactionAction, TransactionEvent, TransactionState,
};

/// A store in memory that runs the statements of the embedded engine.
#[derive(Clone, Debug, PartialEq)]
struct Engine {
    credentials: Vec<SqliteCredentialsDAO>,
    sessions: Vec<SqliteSessionsDAO>,
    now: Timestamp,
    transactions: usize,
}

fn text(value: &SqlValue) -> String {
    match value {
        SqlValue::Text(text) => text.clone(),
        other => panic!("expected a text, found {:?}", other),
    }
}

fn integer(value: &SqlValue) -> i64 {
    match value {
        SqlValue::Integer(n) => *n,
        other => panic!("expected an integer, found {:?}", other),
    }
}

fn boolean(value: &SqlValue) -> bool {
    match value {
        SqlValue::Boolean(b) => *b,
        other => panic!("expected a boolean, found {:?}", other),
    }
}

fn fetched<R>(statement: &Statement, found: Option<R>) -> Result<Option<R>, DriverError> {
    match (statement.fetch, found) {
        (Fetch::One, None) => Err(DriverError::RowNotFound),
        (_, found) => Ok(found),
    }
}

fn exactly_one<R>(outcome: Result<Option<R>, DriverError>) -> Result<R, DriverError> {
    outcome.map(|row| row.expect("a statement that fetches one row gave none"))
}

impl Engine {
    fn new(now: Timestamp) -> Engine {
        Engine { credentials: Vec::new(), sessions: Vec::new(), now, transactions: 0 }
    }

    fn credentials(
        &mut self,
        statement: &Statement,
    ) -> Result<Option<SqliteCredentialsDAO>, DriverError> {
        let sql = statement.sql;
        let binds = &statement.binds;
        if sql.starts_with("INSERT INTO credentials (id, email, password)") {
            assert_eq!(binds.len(), 3);
            let row = SqliteCredentialsDAO {
                id: text(&binds[0]),
                email: text(&binds[1]),
                password: text(&binds[2]),
                active: true,
            };
            if self.credentials.iter().any(|c| c.email == row.email || c.id == row.id) {
                return Err(DriverError::Database(
                    "UNIQUE constraint failed: credentials.email".to_string(),
                ));
            }
            self.credentials.push(row.clone());
            return fetched(statement, Some(row));
        }
        let key = text(&binds[0]);
        let by_id = sql.contains("WHERE id = $1");
        assert!(by_id || sql.contains("WHERE email = $1"), "unknown statement {:?}", sql);
        let place = self
            .credentials
            .iter()
            .position(|c| if by_id { c.id == key } else { c.email == key });
        if sql.starts_with("SELECT id, email, password, active FROM credentials") {
            assert_eq!(binds.len(), 1);
            return fetched(statement, place.map(|at| self.credentials[at].clone()));
        }
        if sql.starts_with("UPDATE credentials SET active = false") {
            assert_eq!(binds.len(), 1);
            if let Some(at) = place {
                self.credentials[at].active = false;
            }
            return fetched(statement, place.map(|at| self.credentials[at].clone()));
        }
        if sql.starts_with("UPDATE credentials SET password = $2, active = $3") {
            assert_eq!(binds.len(), 3);
            if let Some(at) = place {
                self.credentials[at].password = text(&binds[1]);
                self.credentials[at].active = boolean(&binds[2]);
            }
            return fetched(statement, place.map(|at| self.credentials[at].clone()));
        }
        panic!("unknown statement {:?}", sql);
    }

    fn sessions(&mut self, statement: &Statement) -> Result<Option<SqliteSessionsDAO>, DriverError> {
        let sql = statement.sql;
        let binds = &statement.binds;
        if sql.starts_with("INSERT INTO sessions (id, expires_at, credential_id)") {
            assert_eq!(binds.len(), 3);
            let row = SqliteSessionsDAO {
                id: text(&binds[0]),
                created_at: self.now.timestamp_millis(),
                expires_at: integer(&binds[1]),
                credential_id: text(&binds[2]),
                active: true,
            };
            if !self.credentials.iter().any(|c| c.id == row.credential_id) {
                return Err(DriverError::Database("FOREIGN KEY constraint failed".to_string()));
            }
            self.sessions.push(row.clone());
            return fetched(statement, Some(row));
        }
        let key = text(&binds[0]);
        let by_id = sql.contains("WHERE id = $1");
        assert!(by_id || sql.contains("WHERE credential_id = $1"), "unknown statement {:?}", sql);
        let place = self
            .sessions
            .iter()
            .position(|s| if by_id { s.id == key } else { s.credential_id == key });
        if sql.starts_with("SELECT id, created_at, expires_at, credential_id, active FROM sessions")
        {
            return fetched(statement, place.map(|at| self.sessions[at].clone()));
        }
        if sql.starts_with("UPDATE sessions SET active = false") {
            if let Some(at) = place {
                self.sessions[at].active = false;
            }
            return fetched(statement, place.map(|at| self.sessions[at].clone()));
        }
        panic!("unknown statement {:?}", sql);
    }
}

/// Runs `work` as the transaction runner says: the store is put back as it
/// was when the runner abandons the transaction.
fn in_transaction<T: std::fmt::Debug + PartialEq>(
    engine: &mut Engine,
    work: impl FnOnce(&mut Engine) -> Result<T, ServerError>,
) -> Result<T, ServerError> {
    let before = engine.clone();
    let mut work = Some(work);
    let mut state = TransactionState::Idle;
    let mut event = TransactionEvent::Start;
    loop {
        assert!(state.accepts(&event));
        let (next, action) = AuthDatabase::transaction::<T, ServerError>(state, event);
        state = next;
        event = match action {
            TransactionAction::Begin => {
                engine.transactions += 1;
                TransactionEvent::Began(Ok(()))
            }
            TransactionAction::Work => {
                TransactionEvent::Worked((work.take().expect("the work runs once"))(engine))
            }
            TransactionAction::Commit => TransactionEvent::Committed(Ok(())),
            TransactionAction::Abort(e) => {
                let transactions = engine.transactions;
                *engine = before;
                engine.transactions = transactions;
                assert_eq!(state, TransactionState::Finished);
                return Err(e);
            }
            TransactionAction::Finish(answer) => {
                assert_eq!(state, TransactionState::Finished);
                return answer;
            }
        };
    }
}

fn run_sign_up(engine: &mut Engine, email: &str, password: &str) -> Result<CredentialDTO, ServerError> {
    let payload = CreateCredentialDTO { email: email.to_string(), password: password.to_string() };
    let request = SignUpEvent::Request(payload);
    assert!(SignUpState::Start.accepts(&request));
    let (state, action) = sign_up(SignUpState::Start, request);
    let key = match action {
        SignUpAction::Reject(e) => {
            assert_eq!(state, SignUpState::Done);
            return Err(e);
        }
        SignUpAction::CheckExists(key) => key,
        other => panic!("unexpected action {:?}", other),
    };
    in_transaction(engine, move |engine| {
        let lookup = SqliteCredentialsRepository::exists_query(key);
        let found = SqliteCredentialsRepository::found(SqliteCredentialsRepository::optional(
            engine.credentials(&lookup),
        ));
        let report = SignUpEvent::Exists(found);
        assert!(state.accepts(&report));
        let (state, action) = sign_up(state, report);
        let input = match action {
            SignUpAction::Fail(e) => return Err(e),
            SignUpAction::Insert(input) => input,
            other => panic!("unexpected action {:?}", other),
        };
        let insert = SqliteCredentialsRepository::insert(input);
        let inserted = SqliteCredentialsRepository::one(exactly_one(engine.credentials(&insert)));
        let report = SignUpEvent::Inserted(inserted);
        assert!(state.accepts(&report));
        let (state, action) = sign_up(state, report);
        assert_eq!(state, SignUpState::Done);
        match action {
            SignUpAction::Succeed(shown) => Ok(shown),
            SignUpAction::Fail(e) => Err(e),
            other => panic!("unexpected action {:?}", other),
        }
    })
}

fn run_sign_in(engine: &mut Engine, email: &str, password: &str) -> Result<SessionCookie, ServerError> {
    let payload = SignInDTO { email: email.to_string(), password: password.to_string() };
    let request = SignInEvent::Request(payload);
    assert!(SignInState::Start.accepts(&request));
    let (state, action) = sign_in(SignInState::Start, request);
    let key = match action {
        SignInAction::Reject(e) => {
            assert_eq!(state, SignInState::Done);
            return Err(e);
        }
        SignInAction::Find(key) => key,
        other => panic!("unexpected action {:?}", other),
    };
    in_transaction(engine, move |engine| {
        let lookup = SqliteCredentialsRepository::try_get(key);
        let found = SqliteCredentialsRepository::optional(engine.credentials(&lookup));
        let report = SignInEvent::Credential { found, now: engine.now };
        assert!(state.accepts(&report));
        let (state, action) = sign_in(state, report);
        let input = match action {
            SignInAction::Fail(e) => return Err(e),
            SignInAction::Insert(input) => input,
            other => panic!("unexpected action {:?}", other),
        };
        assert!(input.expires_at.is_valid());
        let insert = SqliteSessionsRepository::insert(input);
        let inserted = SqliteSessionsRepository::one(exactly_one(engine.sessions(&insert)));
        let report = SignInEvent::Session(inserted);
        assert!(state.accepts(&report));
        let (state, action) = sign_in(state, report);
        assert_eq!(state, SignInState::Done);
        match action {
            SignInAction::Succeed(cookie) => Ok(cookie),
            SignInAction::Fail(e) => Err(e),
            other => panic!("unexpected action {:?}", other),
        }
    })
}

fn engine() -> Engine {
    Engine::new(Timestamp { secs: 1_790_000_000, nanos: 123_456_789 })
}

fn answer<T: std::fmt::Debug>(outcome: Result<T, ServerError>) -> (u16, String) {
    let response = outcome.unwrap_err().into_response();
    (response.status, response.message)
}

#[test]
fn signup_invalid_email() {
    let mut engine = engine();
    let outcome = run_sign_up(&mut engine, "owkmail.com", "ondfauhdf77364");
    assert_eq!(answer(outcome), (400, "Invalid Email Format".to_string()));
    assert_eq!(engine.transactions, 0);
}

#[test]
fn signup_invalid_password() {
    let mut engine = engine();
    let outcome = run_sign_up(&mut engine, "owk@mail.com", "444");
    assert_eq!(answer(outcome), (400, "Invalid Password Format".to_string()));
    assert_eq!(engine.transactions, 0);
}

#[test]
fn sign_up_credentials_already_exists() {
    let mut engine = engine();
    let first = run_sign_up(&mut engine, "owkw22222@mail.com", "asdjfnaksdf87");
    assert!(first.is_ok());
    let stored = engine.clone();

    let second = run_sign_up(&mut engine, "owkw22222@mail.com", "asdjfnaksdf87");
    assert_eq!(answer(second), (401, "Unauthorized".to_string()));
    assert_eq!(engine.credentials, stored.credentials);
    assert_eq!(engine.credentials.len(), 1);
}

#[test]
fn signup_success() {
    let mut engine = engine();
    let shown = run_sign_up(&mut engine, "asdfasdfasdf@mail.com", "asdjfnaksdf87").unwrap();
    assert_eq!(shown.email, "asdfasdfasdf@mail.com");
    assert_eq!(shown.active, true);
    assert_eq!(verify_password("asdjfnaksdf87", &shown.password), Ok(true));
    assert_eq!(engine.transactions, 1);
    assert_eq!(engine.credentials.len(), 1);
    assert_eq!(engine.credentials[0].id, shown.id);
    assert_eq!(engine.credentials[0].password, shown.password);
}

#[test]
fn sign_in_invalid_email() {
    let mut engine = engine();
    let outcome = run_sign_in(&mut engine, "owkmail.com", "ondfauhdf77364");
    assert_eq!(answer(outcome), (400, "Invalid Email Format".to_string()));
    assert_eq!(engine.transactions, 0);
}

#[test]
fn sign_in_short_password() {
    let mut engine = engine();
    let outcome = run_sign_in(&mut engine, "test@gmail.com", "EYMQE");
    assert_eq!(
        answer(outcome),
        (400, "Password must be at least 6 characters long".to_string())
    );
    assert_eq!(engine.transactions, 0);
}

#[test]
fn sign_in_non_existent_credential() {
    let mut engine = engine();
    let outcome = run_sign_in(&mut engine, "test@gmail.com", "Ej42fkj!yI!Cj9");
    assert_eq!(answer(outcome), (401, "Unauthorized".to_string()));
    assert!(engine.sessions.is_empty());
}

#[test]
fn sign_in_deactivated_account() {
    let mut engine = engine();
    let created = in_transaction(&mut engine, |engine| {
        let credential = CreateCredentialsDAO {
            email: "test@gmail.com".to_string(),
            password: "Ej42fkj!yI!Cj9".to_string(),
        };
        let insert = SqliteCredentialsRepository::insert(credential);
        let credential =
            SqliteCredentialsRepository::one(exactly_one(engine.credentials(&insert))).unwrap();
        let delete = SqliteCredentialsRepository::delete(CredentialsBy::Id(credential.id));
        let deleted =
            SqliteCredentialsRepository::one(exactly_one(engine.credentials(&delete))).unwrap();
        assert!(!deleted.active);
        assert_eq!(deleted.id, credential.id);
        Ok(deleted)
    });
    assert!(created.is_ok(), "Could not setup deactived account for this test");
    assert_eq!(engine.credentials.len(), 1);

    let outcome = run_sign_in(&mut engine, "test@gmail.com", "Ej42fkj!yI!Cj9");
    assert_eq!(answer(outcome), (401, "Unauthorized".to_string()));
    assert!(engine.sessions.is_empty());
}

#[test]
fn sign_in_incorrect_password() {
    let mut engine = engine();
    let signed_up = run_sign_up(&mut engine, "test22@gmail.com", "Ej24a2fkj!yI!Cj9");
    assert!(signed_up.is_ok());

    let outcome = run_sign_in(&mut engine, "test22@gmail.com", "!yI!Cj9");
    assert_eq!(answer(outcome), (401, "Unauthorized".to_string()));
    assert!(engine.sessions.is_empty());
}

#[test]
fn sign_in_success() {
    let mut engine = engine();
    let signed_up = run_sign_up(&mut engine, "test2@gmail.com", "Ej4a2fkj!yI!Cj9");
    assert!(signed_up.is_ok());

    let cookie = run_sign_in(&mut engine, "test2@gmail.com", "Ej4a2fkj!yI!Cj9").unwrap();
    assert_eq!(cookie.name, "ssid");
    assert_eq!(cookie.path, "/");
    assert!(cookie.secure);
    assert!(cookie.http_only);
    let header = cookie.header().unwrap();
    let parsed = cookie::Cookie::parse(header).unwrap();
    assert_eq!(parsed.name(), "ssid");
    assert_eq!(parsed.path(), Some("/"));
    assert!(parsed.secure().unwrap());
    assert!(parsed.http_only().unwrap());
    let expected = engine.now.checked_add_seconds(ONE_DAY_IN_SECONDS).unwrap();
    let expires = parsed.expires_datetime().expect("cookie must have an expiration");
    let diff = (expires - expected.to_offset_datetime().unwrap()).whole_seconds().abs();
    assert!(diff <= 1, "Max-Age is not ~24h");

    assert_eq!(engine.sessions.len(), 1);
    assert_eq!(cookie.value, engine.sessions[0].id);
    assert!(Uuid::parse_str(&cookie.value).is_some());
}

#[test]
fn a_session_lasts_one_day() {
    let mut engine = engine();
    let shown = run_sign_up(&mut engine, "a@b.co", "abcdef").unwrap();
    let cookie = run_sign_in(&mut engine, "a@b.co", "abcdef").unwrap();
    let session = engine.sessions[0].clone();
    assert_eq!(session.credential_id, shown.id);
    assert!(session.active);
    assert_eq!(session.expires_at - session.created_at, 86_400_000);
    assert_eq!(session.expires_at, 1_790_086_400_123);
    assert_eq!(cookie.expires, Timestamp { secs: 1_790_086_400, nanos: 123_000_000 });
}

#[test]
fn sign_up_scenario() {
    let mut engine = engine();
    let shown = run_sign_up(&mut engine, "a@b.co", "abcdef").unwrap();
    assert_eq!(shown.email, "a@b.co");
    assert!(shown.active);
    assert_ne!(shown.password, "abcdef");
    assert!(shown.password.starts_with("$argon2"));
    assert!(Uuid::parse_str(&shown.id).is_some());
}

#[test]
fn sign_in_with_wrong_password_scenario() {
    let mut engine = engine();
    run_sign_up(&mut engine, "a@b.co", "abcdef").unwrap();
    let outcome = run_sign_in(&mut engine, "a@b.co", "wrong!!");
    assert_eq!(answer(outcome), (401, "Unauthorized".to_string()));
}

#[test]
fn short_password_scenario() {
    let mut engine = engine();
    let outcome = run_sign_up(&mut engine, "a@b.co", "abc");
    assert_eq!(answer(outcome), (400, "Invalid Password Format".to_string()));
    let outcome = run_sign_in(&mut engine, "a@b.co", "abc");
    assert_eq!(
        answer(outcome),
        (400, "Password must be at least 6 characters long".to_string())
    );
    assert!(engine.credentials.is_empty());
}

#[test]
fn a_deactivated_address_cannot_sign_up_again() {
    let mut engine = engine();
    let shown = run_sign_up(&mut engine, "gone@mail.com", "asdjfnaksdf87").unwrap();
    let id = Uuid::parse_str(&shown.id).unwrap();
    let delete = SqliteCredentialsRepository::delete(CredentialsBy::Id(id));
    let deleted = SqliteCredentialsRepository::one(exactly_one(engine.credentials(&delete))).unwrap();
    assert!(!deleted.active);

    let again = run_sign_up(&mut engine, "gone@mail.com", "another-password");
    assert_eq!(answer(again), (401, "Unauthorized".to_string()));
    assert_eq!(engine.credentials.len(), 1);
    assert_eq!(engine.credentials[0].password, shown.password);
}

#[test]
fn deactivated_and_unknown_answers_are_the_same() {
    let mut engine = engine();
    let shown = run_sign_up(&mut engine, "known@mail.com", "asdjfnaksdf87").unwrap();
    let delete = SqliteCredentialsRepository::delete(CredentialsBy::Email(shown.email.clone()));
    SqliteCredentialsRepository::one(exactly_one(engine.credentials(&delete))).unwrap();

    let deactivated = run_sign_in(&mut engine, "known@mail.com", "asdjfnaksdf87").unwrap_err();
    let unknown = run_sign_in(&mut engine, "unknown@mail.com", "asdjfnaksdf87").unwrap_err();
    assert_eq!(deactivated, unknown);
    assert_eq!(deactivated.into_response(), unknown.into_response());
}

#[test]
fn a_failed_insert_leaves_nothing_behind() {
    let mut engine = engine();
    let before = engine.clone();
    let outcome: Result<(), ServerError> = in_transaction(&mut engine, |engine| {
        let insert = SqliteCredentialsRepository::insert(CreateCredentialsDAO {
            email: "half@mail.com".to_string(),
            password: "hash".to_string(),
        });
        SqliteCredentialsRepository::one(exactly_one(engine.credentials(&insert))).unwrap();
        assert_eq!(engine.credentials.len(), 1);
        Err(ServerError::Unauthorized)
    });
    assert_eq!(outcome, Err(ServerError::Unauthorized));
    assert_eq!(engine.credentials, before.credentials);
}

#[test]
fn a_stored_text_that_is_no_hash_is_an_internal_failure() {
    let mut engine = engine();
    let insert = SqliteCredentialsRepository::insert(CreateCredentialsDAO {
        email: "plain@mail.com".to_string(),
        password: "stored-in-plain".to_string(),
    });
    SqliteCredentialsRepository::one(exactly_one(engine.credentials(&insert))).unwrap();
    let outcome = run_sign_in(&mut engine, "plain@mail.com", "stored-in-plain");
    assert_eq!(answer(outcome), (500, "Internal Server Error".to_string()));
    assert!(engine.sessions.is_empty());
}

#[test]
fn a_malformed_stored_identifier_is_an_internal_failure() {
    let mut engine = engine();
    engine.credentials.push(SqliteCredentialsDAO {
        id: "not-a-uuid".to_string(),
        email: "broken@mail.com".to_string(),
        password: "x".to_string(),
        active: true,
    });
    let outcome = run_sign_in(&mut engine, "broken@mail.com", "asdjfnaksdf87");
    assert_eq!(answer(outcome), (500, "Internal Server Error".to_string()));
    let outcome = run_sign_up(&mut engine, "broken@mail.com", "asdjfnaksdf87");
    assert_eq!(answer(outcome), (500, "Internal Server Error".to_string()));
}

#[test]
fn a_session_whose_cookie_cannot_be_dated_is_not_kept() {
    let mut engine = engine();
    run_sign_up(&mut engine, "late@mail.com", "asdjfnaksdf87").unwrap();
    engine.now = Timestamp { secs: CALENDAR_MAX_SECS - 10, nanos: 0 };
    let outcome = run_sign_in(&mut engine, "late@mail.com", "asdjfnaksdf87");
    assert_eq!(answer(outcome), (500, "Internal Server Error".to_string()));
    assert!(engine.sessions.is_empty());
    assert_eq!(engine.credentials.len(), 1);

    engine.now = Timestamp { secs: CALENDAR_MAX_SECS - 86_400, nanos: 0 };
    let cookie = run_sign_in(&mut engine, "late@mail.com", "asdjfnaksdf87").unwrap();
    assert_eq!(cookie.expires, Timestamp { secs: CALENDAR_MAX_SECS, nanos: 0 });
    assert_eq!(engine.sessions.len(), 1);
}

#[test]
fn sign_up_states_accept_only_their_own_reports() {
    let payload = CreateCredentialDTO { email: "a@b.co".to_string(), password: "abcdef".to_string() };
    let events = vec![
        SignUpEvent::Request(payload),
        SignUpEvent::Exists(Ok(false)),
        SignUpEvent::Inserted(Err(auth::error::DatabaseError::NotFound)),
    ];
    let states = vec![
        SignUpState::Start,
        SignUpState::Checking { email: "a@b.co".to_string(), password: "abcdef".to_string() },
        SignUpState::Inserting,
        SignUpState::Done,
    ];
    for (i, state) in states.iter().enumerate() {
        for (j, event) in events.iter().enumerate() {
            assert_eq!(state.accepts(event), i == j, "state {:?}, event {:?}", state, event);
        }
    }
}

#[test]
fn sign_in_states_accept_only_their_own_reports() {
    let payload = SignInDTO { email: "a@b.co".to_string(), password: "abcdef".to_string() };
    let now = Timestamp { secs: 1_790_000_000, nanos: 0 };
    let session = SessionsDAO {
        id: Uuid { bits: 1 },
        created_at: now,
        expires_at: now,
        credential_id: Uuid { bits: 2 },
        active: true,
    };
    let events = vec![
        SignInEvent::Request(payload),
        SignInEvent::Credential { found: Ok(None), now },
        SignInEvent::Session(Ok(session)),
    ];
    let states = vec![
        SignInState::Start,
        SignInState::Looking { password: "abcdef".to_string() },
        SignInState::Inserting,
        SignInState::Done,
    ];
    for (i, state) in states.iter().enumerate() {
        for (j, event) in events.iter().enumerate() {
            assert_eq!(state.accepts(event), i == j, "state {:?}, event {:?}", state, event);
        }
    }
}

#[test]
fn a_lookup_must_come_back_at_an_instant_that_has_a_next_day() {
    let looking = SignInState::Looking { password: "abcdef".to_string() };
    let at = |secs: i64, nanos: u32| SignInEvent::Credential {
        found: Ok(None),
        now: Timestamp { secs, nanos },
    };
    assert!(looking.accepts(&at(MAX_SECS - 86_400, 999_999_999)));
    assert!(!looking.accepts(&at(MAX_SECS - 86_399, 0)));
    assert!(!looking.accepts(&at(0, 1_000_000_000)));
    assert!(!looking.accepts(&at(i64::MAX, 0)));
    assert!(!looking.accepts(&at(i64::MIN, 0)));
}

#[test]
fn each_step_of_sign_in_on_given_reports() {
    let credential = auth::entities::credentials::CredentialsDAO {
        id: Uuid { bits: 7 },
        email: "a@b.co".to_string(),
        password: auth::common::hash_password("abcdef").unwrap(),
        active: true,
    };
    let now = Timestamp { secs: 1_000, nanos: 5 };
    let looking = || SignInState::Looking { password: "abcdef".to_string() };

    let (state, action) = sign_in(
        SignInState::Start,
        SignInEvent::Request(SignInDTO {
            email: "a@b.co".to_string(),
            password: "abcdef".to_string(),
        }),
    );
    assert_eq!(state, looking());
    assert_eq!(action, SignInAction::Find(CredentialsBy::Email("a@b.co".to_string())));

    let (state, action) =
        sign_in(looking(), SignInEvent::Credential { found: Ok(Some(credential.clone())), now });
    assert_eq!(state, SignInState::Inserting);
    assert_eq!(
        action,
        SignInAction::Insert(auth::entities::sessions::CreateSessionsDAO {
            expires_at: Timestamp { secs: 87_400, nanos: 5 },
            credential_id: Uuid { bits: 7 },
        })
    );

    let (state, action) = sign_in(
        looking(),
        SignInEvent::Credential {
            found: Err(auth::error::DatabaseError::ConnectionNotAvailable),
            now,
        },
    );
    assert_eq!(state, SignInState::Done);
    assert_eq!(
        action,
        SignInAction::Fail(ServerError::InternalServerError("Internal Server Error".to_string()))
    );

    let session = SessionsDAO {
        id: Uuid { bits: 0xa1a2a3a4b1b2c1c2d1d2d3d4d5d6d7d8 },
        created_at: now,
        expires_at: Timestamp { secs: 87_400, nanos: 5 },
        credential_id: Uuid { bits: 7 },
        active: true,
    };
    let (state, action) = sign_in(SignInState::Inserting, SignInEvent::Session(Ok(session)));
    assert_eq!(state, SignInState::Done);
    assert_eq!(
        action,
        SignInAction::Succeed(SessionCookie {
            name: "ssid".to_string(),
            value: "a1a2a3a4-b1b2-c1c2-d1d2-d3d4d5d6d7d8".to_string(),
            path: "/".to_string(),
            secure: true,
            http_only: true,
            expires: Timestamp { secs: 87_400, nanos: 5 },
        })
    );
    assert_eq!(
        auth::handlers::sign_in::cookie("v", Timestamp { secs: 1, nanos: 2 }),
        SessionCookie {
            name: "ssid".to_string(),
            value: "v".to_string(),
            path: "/".to_string(),
            secure: true,
            http_only: true,
            expires: Timestamp { secs: 1, nanos: 2 },
        }
    );
}

#[test]
fn each_step_of_sign_up_on_given_reports() {
    let checking = || SignUpState::Checking {
        email: "a@b.co".to_string(),
        password: "abcdef".to_string(),
    };
    let (state, action) = sign_up(
        SignUpState::Start,
        SignUpEvent::Request(CreateCredentialDTO {
            email: "a@b.co".to_string(),
            password: "abcdef".to_string(),
        }),
    );
    assert_eq!(state, checking());
    assert_eq!(action, SignUpAction::CheckExists(CredentialsBy::Email("a@b.co".to_string())));

    let (state, action) = sign_up(checking(), SignUpEvent::Exists(Ok(true)));
    assert_eq!((state, action), (SignUpState::Done, SignUpAction::Fail(ServerError::Unauthorized)));

    let (state, action) =
        sign_up(checking(), SignUpEvent::Exists(Err(auth::error::DatabaseError::NotFound)));
    assert_eq!(state, SignUpState::Done);
    assert_eq!(
        action,
        SignUpAction::Fail(ServerError::InternalServerError("Internal Server Error".to_string()))
    );

    let (state, action) = sign_up(checking(), SignUpEvent::Exists(Ok(false)));
    assert_eq!(state, SignUpState::Inserting);
    match action {
        SignUpAction::Insert(input) => {
            assert_eq!(input.email, "a@b.co");
            assert_eq!(verify_password("abcdef", &input.password), Ok(true));
        }
        other => panic!("unexpected action {:?}", other),
    }

    let hashed = auth::handlers::sign_up::sign_up_hashed("a@b.co".to_string(), Ok("h".to_string()));
    assert_eq!(
        hashed,
        (
            SignUpState::Inserting,
            SignUpAction::Insert(CreateCredentialsDAO {
                email: "a@b.co".to_string(),
                password: "h".to_string(),
            })
        )
    );
    let failed = auth::handlers::sign_up::sign_up_hashed(
        "a@b.co".to_string(),
        Err(ServerError::InternalServerError("salt".to_string())),
    );
    assert_eq!(
        failed,
        (
            SignUpState::Done,
            SignUpAction::Fail(ServerError::InternalServerError("salt".to_string()))
        )
    );

    let verified = auth::handlers::sign_in::sign_in_verified(
        Uuid { bits: 9 },
        Ok(false),
        Timestamp { secs: 0, nanos: 0 },
    );
    assert_eq!(verified, (SignInState::Done, SignInAction::Fail(ServerError::Unauthorized)));
}

#[test]
fn the_cookie_header_reads_back() {
    let issued = auth::handlers::sign_in::cookie(
        "a1a2a3a4-b1b2-c1c2-d1d2-d3d4d5d6d7d8",
        Timestamp { secs: 1_445_412_480, nanos: 0 },
    );
    let header = issued.header().unwrap();
    let parsed = cookie::Cookie::parse(header.clone()).unwrap();
    assert_eq!(parsed.name(), "ssid");
    assert_eq!(parsed.value(), "a1a2a3a4-b1b2-c1c2-d1d2-d3d4d5d6d7d8");
    assert_eq!(parsed.path(), Some("/"));
    assert!(parsed.secure().unwrap());
    assert!(parsed.http_only().unwrap());
    let expires = parsed.expires_datetime().expect("cookie must have an expiration");
    assert_eq!(expires.unix_timestamp(), 1_445_412_480);
    assert!(header.starts_with("ssid=a1a2a3a4-b1b2-c1c2-d1d2-d3d4d5d6d7d8;"));
    assert!(header.contains("Expires=Wed, 21 Oct 2015 07:28:00 GMT"));
    assert!(header.contains("Path=/"));
    assert!(header.contains("Secure"));
    assert!(header.contains("HttpOnly"));
}

#[test]
fn a_cookie_beyond_the_calendar_has_no_header() {
    let issued = auth::handlers::sign_in::cookie(
        "v",
        Timestamp { secs: CALENDAR_MAX_SECS + 1, nanos: 0 },
    );
    assert!(matches!(issued.header(), Err(ServerError::InternalServerError(_))));
    let issued = auth::handlers::sign_in::cookie("v", Timestamp { secs: CALENDAR_MAX_SECS, nanos: 0 });
    assert!(issued.header().is_ok());
}
