use meals_service::diets::models::{Diet as StoredDiet, ReqDiet as DietBody};
use meals_service::errors::ApiError;
use meals_service::flow::{resume, Step};
use meals_service::local::{self, Surroundings};
use meals_service::meals::diet_client::DietResponse;
use meals_service::meals::models::{Diet, Dish, Meal, ReqDish, ReqMeal};
use meals_service::meals::ninjas_api::{LookupResponse, NutritionInfo};
use meals_service::memory::MemoryStore;
use meals_service::protocol::{Command, Outcome, Reply};
use meals_service::records::{Body, Kind, Record, Rows};
use meals_service::routing::Service;
use meals_service::service::{begin, Method, Request};
use meals_service::validation::MAX_BODY_BYTES;

fn nothing() -> Surroundings {
    Surroundings {
        chunks: Vec::new(),
        decoded: None,
        nutrition: LookupResponse::Unreachable,
        diet: DietResponse::Unreachable,
    }
}

fn with_body(body: Body) -> Surroundings {
    Surroundings {
        chunks: vec![b"{}".to_vec()],
        decoded: Some(body),
        nutrition: LookupResponse::Unreachable,
        diet: DietResponse::Unreachable,
    }
}

/// Runs a request to its reply, step by step, and tells the commands that were given.
fn run(store: &mut MemoryStore, script: Surroundings, first: Step) -> (Reply, Vec<Command>) {
    let mut asked = Vec::new();
    let mut step = first;
    let mut chunks = script.chunks.clone().into_iter();
    loop {
        match step {
            Step::Done(reply) => return (reply, asked),
            Step::Ask(pending, command) => {
                let outcome = match &command {
                    Command::ReadChunk => match chunks.next() {
                        Some(chunk) => Outcome::Chunk(chunk),
                        None => Outcome::EndOfBody,
                    },
                    Command::Decode(_, _) => match &script.decoded {
                        Some(body) => Outcome::Parsed(body.clone()),
                        None => Outcome::Unparsable,
                    },
                    Command::LookupNutrition(_) => Outcome::Nutrition(script.nutrition.clone()),
                    Command::FetchDiet(_) => Outcome::Diet(script.diet.clone()),
                    other => store.execute(copy(other)),
                };
                asked.push(command);
                step = resume(pending, outcome);
            }
        }
    }
}

fn copy(command: &Command) -> Command {
    match command {
        Command::ReadChunk => Command::ReadChunk,
        Command::Decode(kind, bytes) => Command::Decode(*kind, bytes.clone()),
        Command::LookupNutrition(name) => Command::LookupNutrition(name.clone()),
        Command::FetchDiet(name) => Command::FetchDiet(name.clone()),
        Command::List(kind) => Command::List(*kind),
        Command::FindById(kind, id) => Command::FindById(*kind, *id),
        Command::FindByName(kind, name) => Command::FindByName(*kind, name.clone()),
        Command::Insert(new) => Command::Insert(match new {
            meals_service::records::NewRecord::Dish(d) => {
                meals_service::records::NewRecord::Dish(d.clone())
            }
            meals_service::records::NewRecord::Meal(m) => {
                meals_service::records::NewRecord::Meal(m.clone())
            }
            meals_service::records::NewRecord::Diet(d) => {
                meals_service::records::NewRecord::Diet(d.clone())
            }
        }),
        Command::Update(id, meal) => Command::Update(*id, meal.clone()),
        Command::DeleteById(kind, id) => Command::DeleteById(*kind, *id),
        Command::DeleteByName(kind, name) => Command::DeleteByName(*kind, name.clone()),
    }
}

fn request(method: Method, path: &str) -> Request {
    Request { method, path: path.to_string(), content_type: None, diet: None }
}

fn post(path: &str) -> Request {
    Request {
        method: Method::Post,
        path: path.to_string(),
        content_type: Some("application/json".to_string()),
        diet: None,
    }
}

fn put(path: &str) -> Request {
    Request {
        method: Method::Put,
        path: path.to_string(),
        content_type: Some("application/json".to_string()),
        diet: None,
    }
}

fn serve(store: &mut MemoryStore, service: Service, script: Surroundings, request: Request) -> Reply {
    local::serve(store, &script, service, request)
}

fn facts(name: &str, calories: i64, sodium: i64, sugar: i64, size: i64) -> NutritionInfo {
    NutritionInfo {
        name: name.to_string(),
        calories,
        serving_size_g: size,
        fat_total_g: 0,
        fat_saturated_g: 0,
        protein_g: 0,
        sodium_mg: sodium,
        potassium_mg: 0,
        cholesterol_mg: 0,
        carbohydrates_total_g: 0,
        fiber_g: 0,
        sugar_g: sugar,
    }
}

fn found(matches: Vec<NutritionInfo>) -> LookupResponse {
    LookupResponse::Answered { status: 200, records: Some(matches) }
}

fn create_dish(store: &mut MemoryStore, name: &str, matches: Vec<NutritionInfo>) -> Reply {
    let mut script = with_body(Body::Dish(ReqDish { name: Some(name.to_string()) }));
    script.nutrition = found(matches);
    serve(store, Service::Meals, script, post("/dishes"))
}

fn meal_body(name: &str, appetizer: i32, main: i32, dessert: i32) -> Body {
    Body::Meal(ReqMeal {
        name: Some(name.to_string()),
        appetizer: Some(appetizer),
        main: Some(main),
        dessert: Some(dessert),
    })
}

fn create_meal(store: &mut MemoryStore, name: &str, a: i32, m: i32, d: i32) -> Reply {
    serve(store, Service::Meals, with_body(meal_body(name, a, m, d)), post("/meals"))
}

fn create_diet(store: &mut MemoryStore, name: &str, cal: i64, sodium: i64, sugar: i64) -> Reply {
    let body = Body::Diet(DietBody {
        name: Some(name.to_string()),
        cal: Some(cal),
        sodium: Some(sodium),
        sugar: Some(sugar),
    });
    serve(store, Service::Diets, with_body(body), post("/diets"))
}

fn get(store: &mut MemoryStore, service: Service, path: &str) -> Reply {
    serve(store, service, nothing(), request(Method::Get, path))
}

fn delete(store: &mut MemoryStore, service: Service, path: &str) -> Reply {
    serve(store, service, nothing(), request(Method::Delete, path))
}

/// A store with three dishes (ids 1 to 3) and the meal "lunch" (id 1) made of them.
fn stocked() -> MemoryStore {
    let mut store = MemoryStore::new();
    assert_eq!(
        create_dish(&mut store, "soup", vec![facts("soup", 100_000, 10_000, 1_000, 250_000)]),
        Reply::Created(1)
    );
    assert_eq!(
        create_dish(&mut store, "steak", vec![facts("steak", 300_000, 20_000, 2_000, 200_000)]),
        Reply::Created(2)
    );
    assert_eq!(
        create_dish(&mut store, "cake", vec![facts("cake", 400_000, 30_000, 30_000, 100_000)]),
        Reply::Created(3)
    );
    assert_eq!(create_meal(&mut store, "lunch", 1, 2, 3), Reply::Created(1));
    store
}

fn lunch() -> Meal {
    Meal {
        id: 1,
        name: "lunch".to_string(),
        appetizer: Some(1),
        main: Some(2),
        dessert: Some(3),
        cal: Some(800_000),
        sodium: Some(60_000),
        sugar: Some(33_000),
    }
}

#[test]
fn serving_in_one_go_and_step_by_step_agree() {
    let mut one = stocked();
    let mut other = stocked();
    let mut script = with_body(Body::Dish(ReqDish { name: Some("rice".to_string()) }));
    script.chunks = vec![b"{\"name\":".to_vec(), Vec::new(), b"\"rice\"}".to_vec()];
    script.nutrition = found(vec![facts("rice", 130_000, 1_000, 100, 100_000)]);
    let (stepwise, asked) = run(&mut one, nothing_but(&script), begin(Service::Meals, post("/dishes")));
    let at_once = local::serve(&mut other, &script, Service::Meals, post("/dishes"));
    assert_eq!(stepwise, Reply::Created(4));
    assert_eq!(at_once, Reply::Created(4));
    assert_eq!(asked.len(), 8);
    assert_eq!(get(&mut one, Service::Meals, "/dishes"), get(&mut other, Service::Meals, "/dishes"));
}

fn nothing_but(script: &Surroundings) -> Surroundings {
    Surroundings {
        chunks: script.chunks.clone(),
        decoded: script.decoded.clone(),
        nutrition: script.nutrition.clone(),
        diet: script.diet.clone(),
    }
}

#[test]
fn index_greets() {
    let mut store = MemoryStore::new();
    assert_eq!(get(&mut store, Service::Meals, "/"), Reply::Welcome);
    assert_eq!(get(&mut store, Service::Diets, "/"), Reply::Welcome);
    assert_eq!(delete(&mut store, Service::Meals, "/"), Reply::NoRoute);
}

#[test]
fn created_dish_is_read_back_by_id_and_by_name() {
    let mut store = MemoryStore::new();
    let matches = vec![
        facts("chicken breast", 200_000, 70_000, 0, 100_000),
        facts("chicken wing", 150_000, 80_000, 500, 100_000),
    ];
    assert_eq!(create_dish(&mut store, "chicken", matches), Reply::Created(1));
    let expected = Dish {
        id: 1,
        name: "chicken".to_string(),
        cal: 350_000,
        sodium: 150_000,
        sugar: 500,
        size: 200_000,
    };
    assert_eq!(
        get(&mut store, Service::Meals, "/dishes/1"),
        Reply::One(Record::Dish(expected.clone()))
    );
    assert_eq!(
        get(&mut store, Service::Meals, "/dishes/chicken"),
        Reply::One(Record::Dish(expected.clone()))
    );
    assert_eq!(
        get(&mut store, Service::Meals, "/dishes"),
        Reply::Listing(Rows::Dishes(vec![expected]))
    );
}

#[test]
fn created_meal_is_read_back_with_the_nutrition_of_its_dishes() {
    let mut store = stocked();
    assert_eq!(get(&mut store, Service::Meals, "/meals/1"), Reply::One(Record::Meal(lunch())));
    assert_eq!(get(&mut store, Service::Meals, "/meals/lunch"), Reply::One(Record::Meal(lunch())));
    assert_eq!(get(&mut store, Service::Meals, "/meals"), Reply::Listing(Rows::Meals(vec![lunch()])));
}

#[test]
fn created_diet_is_read_back() {
    let mut store = MemoryStore::new();
    assert_eq!(create_diet(&mut store, "Keto", 500_000, 1_000, 2_000), Reply::Created(1));
    let keto =
        StoredDiet { id: 1, name: "Keto".to_string(), cal: 500_000, sodium: 1_000, sugar: 2_000 };
    assert_eq!(get(&mut store, Service::Diets, "/diets/1"), Reply::One(Record::Diet(keto.clone())));
    assert_eq!(
        get(&mut store, Service::Diets, "/diets/Keto"),
        Reply::One(Record::Diet(keto.clone()))
    );
    assert_eq!(get(&mut store, Service::Diets, "/diets"), Reply::Listing(Rows::Diets(vec![keto])));
}

#[test]
fn second_dish_of_a_name_is_a_duplicate() {
    let mut store = MemoryStore::new();
    let first = create_dish(&mut store, "pizza", vec![facts("pizza", 266_000, 598_000, 3_600, 100_000)]);
    assert_eq!(first, Reply::Created(1));
    let second = create_dish(&mut store, "pizza", vec![facts("pizza", 1, 1, 1, 1)]);
    assert_eq!(second, Reply::Failed(ApiError::DuplicateNameError));
    assert_eq!(second.status(), 422);
    assert_eq!(second.code(), Some(-2));
    let expected = Dish {
        id: 1,
        name: "pizza".to_string(),
        cal: 266_000,
        sodium: 598_000,
        sugar: 3_600,
        size: 100_000,
    };
    assert_eq!(
        get(&mut store, Service::Meals, "/dishes/1"),
        Reply::One(Record::Dish(expected.clone()))
    );
    assert_eq!(
        get(&mut store, Service::Meals, "/dishes"),
        Reply::Listing(Rows::Dishes(vec![expected]))
    );
}

#[test]
fn second_meal_and_diet_of_a_name_are_duplicates() {
    let mut store = stocked();
    assert_eq!(create_meal(&mut store, "lunch", 3, 2, 1), Reply::Failed(ApiError::DuplicateNameError));
    assert_eq!(get(&mut store, Service::Meals, "/meals/1"), Reply::One(Record::Meal(lunch())));
    assert_eq!(create_diet(&mut store, "Keto", 1, 2, 3), Reply::Created(1));
    assert_eq!(create_diet(&mut store, "Keto", 4, 5, 6), Reply::Failed(ApiError::DuplicateNameError));
    let keto = StoredDiet { id: 1, name: "Keto".to_string(), cal: 1, sodium: 2, sugar: 3 };
    assert_eq!(get(&mut store, Service::Diets, "/diets/Keto"), Reply::One(Record::Diet(keto)));
}

#[test]
fn a_conflict_that_the_store_reports_is_a_duplicate_too() {
    let first = meals_service::meals::meals_routes::create_meal(Some("application/json"));
    let Step::Ask(pending, _) = first else { panic!("the body is read first") };
    let Step::Ask(pending, _) = resume(pending, Outcome::EndOfBody) else { panic!() };
    let step = resume(pending, Outcome::Parsed(meal_body("lunch", 1, 2, 3)));
    let Step::Ask(pending, Command::FindByName(Kind::Meal, name)) = step else { panic!() };
    assert_eq!(name, "lunch");
    let Step::Ask(pending, Command::Insert(_)) = resume(pending, Outcome::Missing) else {
        panic!()
    };
    assert_eq!(resume(pending, Outcome::Conflict), Step::Done(Reply::Failed(ApiError::DuplicateNameError)));
}

#[test]
fn the_check_before_an_insertion_only_spares_the_store() {
    let first = meals_service::diets::diets_routes::create_diet(Some("application/json"));
    let Step::Ask(pending, _) = first else { panic!("the body is read first") };
    let Step::Ask(pending, _) = resume(pending, Outcome::EndOfBody) else { panic!() };
    let body = Body::Diet(DietBody {
        name: Some("Keto".to_string()),
        cal: Some(1),
        sodium: Some(2),
        sugar: Some(3),
    });
    let Step::Ask(pending, _) = resume(pending, Outcome::Parsed(body)) else { panic!() };
    let Step::Ask(pending, Command::Insert(_)) = resume(pending, Outcome::Failed) else {
        panic!("the store decides")
    };
    assert_eq!(
        resume(pending, Outcome::Rejected),
        Step::Done(Reply::Failed(ApiError::ForeignKeyViolation))
    );
}

#[test]
fn numeric_segment_goes_by_id_and_other_segments_by_name() {
    let by_id = begin(Service::Meals, request(Method::Get, "/dishes/42"));
    assert!(matches!(by_id, Step::Ask(_, Command::FindById(Kind::Dish, 42))));
    let by_name = begin(Service::Meals, request(Method::Get, "/dishes/pizza"));
    assert!(matches!(&by_name, Step::Ask(_, Command::FindByName(Kind::Dish, n)) if n == "pizza"));
    let delete_by_id = begin(Service::Meals, request(Method::Delete, "/meals/42"));
    assert!(matches!(delete_by_id, Step::Ask(_, Command::FindById(Kind::Meal, 42))));
    let delete_by_name = begin(Service::Meals, request(Method::Delete, "/meals/42nd street"));
    assert!(matches!(
        &delete_by_name,
        Step::Ask(_, Command::FindByName(Kind::Meal, n)) if n == "42nd street"
    ));
    let diet = begin(Service::Diets, request(Method::Get, "/diets/5"));
    assert!(matches!(diet, Step::Ask(_, Command::FindById(Kind::Diet, 5))));
}

#[test]
fn a_dish_named_like_a_number_is_found_by_id_only() {
    let mut store = MemoryStore::new();
    assert_eq!(create_dish(&mut store, "42", vec![facts("42", 1, 1, 1, 1)]), Reply::Created(1));
    assert_eq!(
        get(&mut store, Service::Meals, "/dishes/42"),
        Reply::Failed(ApiError::EntityNotFound)
    );
    assert!(matches!(get(&mut store, Service::Meals, "/dishes/1"), Reply::One(_)));
}

#[test]
fn collection_deletion_is_405_whatever_the_store_holds() {
    let mut empty = MemoryStore::new();
    let mut full = stocked();
    for store in [&mut empty, &mut full] {
        for (service, path) in
            [(Service::Meals, "/dishes"), (Service::Meals, "/meals"), (Service::Diets, "/diets")]
        {
            let (reply, asked) = run(store, nothing(), begin(service, request(Method::Delete, path)));
            assert_eq!(reply, Reply::Failed(ApiError::MethodNotAllowed));
            assert_eq!(reply.status(), 405);
            assert!(asked.is_empty());
        }
    }
    assert_eq!(get(&mut full, Service::Meals, "/meals"), Reply::Listing(Rows::Meals(vec![lunch()])));
    assert_eq!(
        meals_service::meals::dishes_routes::collection_deletion(),
        Reply::Failed(ApiError::MethodNotAllowed)
    );
    assert_eq!(
        meals_service::meals::meals_routes::meals_collection_deletion(),
        Reply::Failed(ApiError::MethodNotAllowed)
    );
    assert_eq!(
        meals_service::diets::diets_routes::diets_collection_deletion(),
        Reply::Failed(ApiError::MethodNotAllowed)
    );
}

fn keto() -> Diet {
    Diet { name: "Keto".to_string(), cal: 500_000, sodium: 100_000, sugar: 40_000 }
}

fn list_meals(store: &mut MemoryStore, diet: Option<&str>, answer: Option<DietResponse>) -> Reply {
    let mut script = nothing();
    if let Some(answer) = answer {
        script.diet = answer;
    }
    let mut req = request(Method::Get, "/meals");
    req.diet = diet.map(|d| d.to_string());
    serve(store, Service::Meals, script, req)
}

#[test]
fn meals_are_filtered_by_the_diet() {
    let mut store = stocked();
    assert_eq!(create_meal(&mut store, "snack", 1, 1, 1), Reply::Created(2));
    assert_eq!(create_meal(&mut store, "salty", 3, 3, 3), Reply::Created(3));
    let answer = DietResponse::Answered { status: 200, diet: Some(keto()) };
    let reply = list_meals(&mut store, Some("Keto"), Some(answer));
    let Reply::Listing(Rows::Meals(meals)) = reply else { panic!("a list of meals") };
    let names: Vec<&str> = meals.iter().map(|m| m.name.as_str()).collect();
    assert_eq!(names, vec!["snack"]);
    assert_eq!(meals[0].cal, Some(300_000));
    for m in &meals {
        assert!(m.cal.unwrap() <= 500_000);
        assert!(m.sodium.unwrap() <= 100_000);
        assert!(m.sugar.unwrap() <= 40_000);
    }
}

#[test]
fn a_listed_meal_without_an_amount_is_filtered_out() {
    let step = begin(
        Service::Meals,
        Request {
            method: Method::Get,
            path: "/meals".to_string(),
            content_type: None,
            diet: Some("Keto".to_string()),
        },
    );
    let Step::Ask(pending, Command::FetchDiet(name)) = step else { panic!("the diet is fetched") };
    assert_eq!(name, "Keto");
    let answer = DietResponse::Answered { status: 200, diet: Some(keto()) };
    let Step::Ask(pending, Command::List(Kind::Meal)) = resume(pending, Outcome::Diet(answer))
    else {
        panic!("the meals are listed")
    };
    let mut unknown = lunch();
    unknown.cal = None;
    unknown.sodium = Some(0);
    unknown.sugar = Some(0);
    let mut light = lunch();
    light.id = 2;
    light.cal = Some(500_000);
    light.sodium = Some(0);
    light.sugar = Some(0);
    let listed = Outcome::Listed(Rows::Meals(vec![unknown, lunch(), light.clone()]));
    assert_eq!(resume(pending, listed), Step::Done(Reply::Listing(Rows::Meals(vec![light]))));
}

#[test]
fn without_a_diet_all_meals_are_listed() {
    let mut store = stocked();
    assert_eq!(list_meals(&mut store, None, None), Reply::Listing(Rows::Meals(vec![lunch()])));
    assert_eq!(list_meals(&mut store, Some(""), None), Reply::Listing(Rows::Meals(vec![lunch()])));
}

#[test]
fn a_diet_that_does_not_exist_is_told_from_a_service_that_fails() {
    let mut store = stocked();
    let missing = DietResponse::Answered { status: 404, diet: None };
    let reply = list_meals(&mut store, Some("Paleo"), Some(missing));
    assert_eq!(reply, Reply::Failed(ApiError::DietNotFound));
    assert_eq!((reply.status(), reply.code()), (404, Some(-7)));
    let reply = list_meals(&mut store, Some("Paleo"), Some(DietResponse::Unreachable));
    assert_eq!(reply, Reply::Failed(ApiError::RemoteServiceUnavailable));
    assert_eq!(reply.status(), 500);
    let garbled = DietResponse::Answered { status: 200, diet: None };
    let reply = list_meals(&mut store, Some("Paleo"), Some(garbled));
    assert_eq!(reply, Reply::Failed(ApiError::RemoteServiceUnavailable));
}

#[test]
fn body_beyond_the_limit_is_refused_before_it_is_decoded() {
    let mut store = MemoryStore::new();
    let mut script = with_body(Body::Dish(ReqDish { name: Some("pizza".to_string()) }));
    script.chunks = vec![vec![b' '; MAX_BODY_BYTES], vec![b' '], vec![b' '; 10]];
    script.nutrition = found(vec![facts("pizza", 1, 1, 1, 1)]);
    let (reply, asked) = run(&mut store, script, begin(Service::Meals, post("/dishes")));
    assert_eq!(reply, Reply::Failed(ApiError::PayloadTooLarge));
    assert_eq!(reply.status(), 413);
    assert_eq!(asked, vec![Command::ReadChunk, Command::ReadChunk]);
    assert_eq!(get(&mut store, Service::Meals, "/dishes"), Reply::Listing(Rows::Dishes(Vec::new())));
}

#[test]
fn body_of_exactly_the_limit_is_decoded() {
    let mut store = MemoryStore::new();
    let mut script = with_body(Body::Dish(ReqDish { name: Some("pizza".to_string()) }));
    script.chunks = vec![vec![b' '; MAX_BODY_BYTES - 1], Vec::new(), vec![b' ']];
    script.nutrition = found(vec![facts("pizza", 1, 1, 1, 1)]);
    let (reply, asked) = run(&mut store, script, begin(Service::Meals, post("/dishes")));
    assert_eq!(reply, Reply::Created(1));
    assert_eq!(asked[..4], [Command::ReadChunk, Command::ReadChunk, Command::ReadChunk, Command::ReadChunk]);
    assert!(matches!(&asked[4], Command::Decode(Kind::Dish, bytes) if bytes.len() == MAX_BODY_BYTES));
}

#[test]
fn the_body_is_decoded_whole_and_in_order() {
    let mut store = MemoryStore::new();
    let mut script = with_body(meal_body("x", 1, 2, 3));
    script.chunks = vec![b"{\"na".to_vec(), b"me\":".to_vec(), b"\"x\"}".to_vec()];
    let (_, asked) = run(&mut store, script, begin(Service::Meals, post("/meals")));
    assert_eq!(asked[4], Command::Decode(Kind::Meal, b"{\"name\":\"x\"}".to_vec()));
}

#[test]
fn content_type_is_checked_before_anything_is_read() {
    let mut store = MemoryStore::new();
    for content_type in [None, Some("text/plain".to_string())] {
        for path in ["/dishes", "/meals"] {
            let req = Request {
                method: Method::Post,
                path: path.to_string(),
                content_type: content_type.clone(),
                diet: None,
            };
            let (reply, asked) = run(&mut store, nothing(), begin(Service::Meals, req));
            assert_eq!(reply, Reply::Failed(ApiError::ContentTypeError));
            assert_eq!((reply.status(), reply.code()), (415, Some(0)));
            assert!(asked.is_empty());
        }
    }
    let mut req = put("/meals/1");
    req.content_type = None;
    assert_eq!(
        serve(&mut store, Service::Meals, nothing(), req),
        Reply::Failed(ApiError::ContentTypeError)
    );
}

#[test]
fn malformed_and_incomplete_bodies_are_refused() {
    let mut store = stocked();
    let reply = serve(&mut store, Service::Meals, nothing(), post("/dishes"));
    assert_eq!(reply, Reply::Failed(ApiError::MalformedBody));
    assert_eq!((reply.status(), reply.code()), (422, Some(-1)));
    let wrong_shape = with_body(meal_body("lunch", 1, 2, 3));
    assert_eq!(
        serve(&mut store, Service::Meals, wrong_shape, post("/dishes")),
        Reply::Failed(ApiError::MalformedBody)
    );
    let unnamed = with_body(Body::Dish(ReqDish { name: None }));
    let reply = serve(&mut store, Service::Meals, unnamed, post("/dishes"));
    assert_eq!(reply, Reply::Failed(ApiError::MissingField));
    assert_eq!((reply.status(), reply.code()), (422, Some(-1)));
    let incomplete = with_body(Body::Meal(ReqMeal {
        name: Some("dinner".to_string()),
        appetizer: Some(1),
        main: None,
        dessert: Some(3),
    }));
    assert_eq!(
        serve(&mut store, Service::Meals, incomplete, post("/meals")),
        Reply::Failed(ApiError::MissingField)
    );
    let no_bound = with_body(Body::Diet(DietBody {
        name: Some("Keto".to_string()),
        cal: None,
        sodium: Some(1),
        sugar: Some(1),
    }));
    assert_eq!(
        serve(&mut store, Service::Diets, no_bound, post("/diets")),
        Reply::Failed(ApiError::MissingField)
    );
}

#[test]
fn dish_that_the_nutrition_service_does_not_know_is_not_created() {
    let mut store = MemoryStore::new();
    let reply = create_dish(&mut store, "gloop", Vec::new());
    assert_eq!(reply, Reply::Failed(ApiError::ExternalLookupNotFound));
    assert_eq!((reply.status(), reply.code()), (422, Some(-3)));
    let mut script = with_body(Body::Dish(ReqDish { name: Some("pizza".to_string()) }));
    script.nutrition = LookupResponse::Unreachable;
    let reply = serve(&mut store, Service::Meals, script, post("/dishes"));
    assert_eq!(reply, Reply::Failed(ApiError::ExternalLookupUnavailable));
    assert_eq!((reply.status(), reply.code()), (504, Some(-4)));
    assert_eq!(get(&mut store, Service::Meals, "/dishes"), Reply::Listing(Rows::Dishes(Vec::new())));
}

#[test]
fn the_nutrition_service_is_asked_for_the_name_in_the_body() {
    let mut store = MemoryStore::new();
    let mut script = with_body(Body::Dish(ReqDish { name: Some("pad thai".to_string()) }));
    script.nutrition = found(vec![facts("pad thai", 1, 1, 1, 1)]);
    let (_, asked) = run(&mut store, script, begin(Service::Meals, post("/dishes")));
    assert!(asked.contains(&Command::LookupNutrition("pad thai".to_string())));
}

#[test]
fn meal_of_a_dish_that_does_not_exist_is_rejected() {
    let mut store = stocked();
    let reply = create_meal(&mut store, "dinner", 1, 2, 99);
    assert_eq!(reply, Reply::Failed(ApiError::ForeignKeyViolation));
    assert_eq!((reply.status(), reply.code()), (422, Some(-6)));
    assert_eq!(get(&mut store, Service::Meals, "/meals"), Reply::Listing(Rows::Meals(vec![lunch()])));
}

#[test]
fn deleting_a_missing_id_is_404_and_changes_nothing() {
    let mut store = stocked();
    let before = get(&mut store, Service::Meals, "/dishes");
    for _ in 0..2 {
        let step = begin(Service::Meals, request(Method::Delete, "/dishes/99"));
        let (reply, asked) = run(&mut store, nothing(), step);
        assert_eq!(reply, Reply::Failed(ApiError::EntityNotFound));
        assert_eq!((reply.status(), reply.code()), (404, Some(-5)));
        assert_eq!(asked, vec![Command::FindById(Kind::Dish, 99)]);
    }
    assert_eq!(get(&mut store, Service::Meals, "/dishes"), before);
    assert_eq!(
        delete(&mut store, Service::Meals, "/meals/nothing"),
        Reply::Failed(ApiError::EntityNotFound)
    );
    assert_eq!(
        delete(&mut store, Service::Meals, "/dishes/2147483648"),
        Reply::Failed(ApiError::EntityNotFound)
    );
    assert_eq!(get(&mut store, Service::Meals, "/meals"), Reply::Listing(Rows::Meals(vec![lunch()])));
}

#[test]
fn deleting_by_id_and_by_name_replies_the_id() {
    let mut store = stocked();
    assert_eq!(delete(&mut store, Service::Meals, "/meals/lunch"), Reply::Deleted(1));
    assert_eq!(get(&mut store, Service::Meals, "/meals/1"), Reply::Failed(ApiError::EntityNotFound));
    assert_eq!(delete(&mut store, Service::Meals, "/meals/lunch"), Reply::Failed(ApiError::EntityNotFound));
    assert_eq!(delete(&mut store, Service::Meals, "/dishes/2"), Reply::Deleted(2));
    assert_eq!(delete(&mut store, Service::Meals, "/dishes/cake"), Reply::Deleted(3));
    let Reply::Listing(Rows::Dishes(left)) = get(&mut store, Service::Meals, "/dishes") else {
        panic!("a list of dishes")
    };
    assert_eq!(left.len(), 1);
    assert_eq!(left[0].name, "soup");
    assert_eq!(create_diet(&mut store, "Keto", 1, 2, 3), Reply::Created(1));
    assert_eq!(delete(&mut store, Service::Diets, "/diets/Keto"), Reply::Deleted(1));
    assert_eq!(get(&mut store, Service::Diets, "/diets"), Reply::Listing(Rows::Diets(Vec::new())));
}

#[test]
fn ids_are_not_given_twice() {
    let mut store = stocked();
    assert_eq!(delete(&mut store, Service::Meals, "/meals/1"), Reply::Deleted(1));
    assert_eq!(create_meal(&mut store, "lunch", 1, 2, 3), Reply::Created(2));
}

#[test]
fn a_dish_that_a_meal_holds_cannot_be_deleted() {
    let mut store = stocked();
    let reply = delete(&mut store, Service::Meals, "/dishes/1");
    assert_eq!(reply, Reply::Failed(ApiError::StorageFailure));
    assert_eq!((reply.status(), reply.code()), (500, Some(-8)));
    assert!(matches!(get(&mut store, Service::Meals, "/dishes/1"), Reply::One(_)));
    assert_eq!(get(&mut store, Service::Meals, "/meals/1"), Reply::One(Record::Meal(lunch())));
}

#[test]
fn update_replaces_the_fields_of_a_meal() {
    let mut store = stocked();
    let reply = serve(&mut store, Service::Meals, with_body(meal_body("brunch", 3, 3, 1)), put("/meals/1"));
    assert_eq!(reply, Reply::Updated(1));
    let expected = Meal {
        id: 1,
        name: "brunch".to_string(),
        appetizer: Some(3),
        main: Some(3),
        dessert: Some(1),
        cal: Some(900_000),
        sodium: Some(70_000),
        sugar: Some(61_000),
    };
    assert_eq!(get(&mut store, Service::Meals, "/meals/1"), Reply::One(Record::Meal(expected)));
    assert_eq!(get(&mut store, Service::Meals, "/meals/lunch"), Reply::Failed(ApiError::EntityNotFound));
    let same_name = serve(&mut store, Service::Meals, with_body(meal_body("brunch", 1, 1, 1)), put("/meals/1"));
    assert_eq!(same_name, Reply::Updated(1));
}

#[test]
fn update_of_a_missing_meal_is_404() {
    let mut store = stocked();
    let reply = serve(&mut store, Service::Meals, with_body(meal_body("brunch", 1, 2, 3)), put("/meals/9"));
    assert_eq!(reply, Reply::Failed(ApiError::EntityNotFound));
    let beyond = serve(&mut store, Service::Meals, nothing(), put("/meals/2147483648"));
    assert_eq!(beyond, Reply::Failed(ApiError::EntityNotFound));
    assert_eq!(get(&mut store, Service::Meals, "/meals/1"), Reply::One(Record::Meal(lunch())));
}

#[test]
fn update_checks_the_body_first() {
    let mut store = stocked();
    let incomplete = with_body(Body::Meal(ReqMeal {
        name: None,
        appetizer: Some(1),
        main: Some(2),
        dessert: Some(3),
    }));
    assert_eq!(
        serve(&mut store, Service::Meals, incomplete, put("/meals/9")),
        Reply::Failed(ApiError::MissingField)
    );
    assert_eq!(
        serve(&mut store, Service::Meals, nothing(), put("/meals/1")),
        Reply::Failed(ApiError::MalformedBody)
    );
}

#[test]
fn update_that_the_store_refuses_is_a_storage_failure() {
    let mut store = stocked();
    assert_eq!(create_meal(&mut store, "dinner", 1, 2, 3), Reply::Created(2));
    let taken = serve(&mut store, Service::Meals, with_body(meal_body("lunch", 1, 2, 3)), put("/meals/2"));
    assert_eq!(taken, Reply::Failed(ApiError::StorageFailure));
    let dangling = serve(&mut store, Service::Meals, with_body(meal_body("supper", 1, 2, 99)), put("/meals/2"));
    assert_eq!(dangling, Reply::Failed(ApiError::StorageFailure));
    assert!(matches!(get(&mut store, Service::Meals, "/meals/dinner"), Reply::One(_)));
}

#[test]
fn requests_that_no_handler_takes() {
    let mut store = stocked();
    assert_eq!(serve(&mut store, Service::Meals, nothing(), put("/dishes/1")), Reply::NoRoute);
    assert_eq!(serve(&mut store, Service::Meals, nothing(), put("/meals/lunch")), Reply::NoRoute);
    assert_eq!(serve(&mut store, Service::Meals, nothing(), put("/meals")), Reply::NoRoute);
    assert_eq!(serve(&mut store, Service::Meals, nothing(), post("/meals/1")), Reply::NoRoute);
    assert_eq!(serve(&mut store, Service::Meals, nothing(), post("/")), Reply::NoRoute);
    assert_eq!(get(&mut store, Service::Meals, "/diets"), Reply::NoRoute);
    assert_eq!(get(&mut store, Service::Diets, "/dishes"), Reply::NoRoute);
    assert_eq!(
        serve(&mut store, Service::Meals, nothing(), request(Method::Other, "/dishes")),
        Reply::NoRoute
    );
    assert_eq!(Reply::NoRoute.status(), 404);
}

#[test]
fn an_outcome_that_does_not_answer_the_command_is_a_failure() {
    let Step::Ask(pending, _) = meals_service::meals::dishes_routes::get_dish(1) else { panic!() };
    assert_eq!(resume(pending, Outcome::Applied), Step::Done(Reply::Failed(ApiError::StorageFailure)));
    let Step::Ask(pending, _) = meals_service::meals::dishes_routes::get_dish(1) else { panic!() };
    assert_eq!(
        resume(pending, Outcome::Found(Record::Meal(lunch()))),
        Step::Done(Reply::Failed(ApiError::StorageFailure))
    );
    let Step::Ask(pending, _) = meals_service::meals::dishes_routes::get_all_dishes() else {
        panic!()
    };
    assert_eq!(
        resume(pending, Outcome::Listed(Rows::Meals(Vec::new()))),
        Step::Done(Reply::Failed(ApiError::StorageFailure))
    );
    let Step::Ask(pending, _) = meals_service::meals::dishes_routes::get_all_dishes() else {
        panic!()
    };
    assert_eq!(resume(pending, Outcome::Failed), Step::Done(Reply::Failed(ApiError::StorageFailure)));
}

#[test]
fn the_store_fails_commands_that_are_not_for_it() {
    let mut store = stocked();
    assert_eq!(store.execute(Command::ReadChunk), Outcome::Failed);
    assert_eq!(store.execute(Command::FetchDiet("Keto".to_string())), Outcome::Failed);
    assert_eq!(store.execute(Command::FindById(Kind::Meal, 1)), Outcome::Found(Record::Meal(lunch())));
    assert_eq!(store.execute(Command::FindById(Kind::Diet, 1)), Outcome::Missing);
}
