use print_order_bot::paper::Paper;
use print_order_bot::paper::PaperSize;
use print_order_bot::paper::PaperType;
use print_order_bot::prompt::Prompt;

fn sample_paper() -> Paper {
    Paper::new(vec![
        PaperType {
            name: "глянцевая".to_string(),
            sizes: vec![
                PaperSize { size: "10x15".to_string(), price: 22 },
                PaperSize { size: "15x21".to_string(), price: 33 },
            ],
        },
        PaperType {
            name: "матовая".to_string(),
            sizes: vec![PaperSize { size: "10x15".to_string(), price: 25 }],
        },
    ])
}

fn sample_prompt() -> Prompt {
    Prompt::new(
        sample_paper(),
        "ул. Печатная, 1".to_string(),
        "+70000000000".to_string(),
    )
}

#[test]
fn paper_prompt() {
    let prompt = sample_prompt();
    let prompt_str = prompt.paper_prompt();
    println!("{}", prompt_str);
    assert!(prompt_str.len() > 0);
}

#[test]
fn sizes_prompt() {
    let prompt = sample_prompt();
    let prompt_str = prompt.size_prompt("глянцевая");
    println!("{}", prompt_str);
    assert!(prompt_str.len() > 0);
}

#[test]
fn paper_prompt_lists_each_type_numbered() {
    let prompt = sample_prompt();
    assert_eq!(
        prompt.paper_prompt(),
        "Выберите тип бумаги: \n1 - глянцевая\n2 - матовая\n"
    );
}

#[test]
fn size_prompt_lists_sizes_with_prices() {
    let prompt = sample_prompt();
    assert_eq!(
        prompt.size_prompt("глянцевая"),
        "Выберите размер фотографий: \n1 - 10x15 22руб/шт\n2 - 15x21 33руб/шт\n"
    );
}

#[test]
fn size_prompt_for_unknown_paper_has_only_header() {
    let prompt = sample_prompt();
    assert_eq!(prompt.size_prompt("бархатная"), "Выберите размер фотографий: \n");
}

#[test]
fn try_get_paper_is_zero_based_and_bounded() {
    let prompt = sample_prompt();
    assert_eq!(prompt.try_get_paper(0), Some("глянцевая".to_string()));
    assert_eq!(prompt.try_get_paper(1), Some("матовая".to_string()));
    assert_eq!(prompt.try_get_paper(2), None);
}

#[test]
fn try_get_size_returns_size_and_price() {
    let prompt = sample_prompt();
    assert_eq!(prompt.try_get_size("глянцевая", 1), Some(("15x21".to_string(), 33)));
    assert_eq!(prompt.try_get_size("глянцевая", 2), None);
    assert_eq!(prompt.try_get_size("никакая", 0), None);
}

#[test]
fn final_prompt_carries_order_id_and_shop_contacts() {
    let prompt = sample_prompt();
    assert_eq!(
        prompt.final_prompt("A-17".to_string()),
        "Ваш заказ A-17 принят!\n\nПолучение по адресу:ул. Печатная, 1\nтел: +70000000000"
    );
}

#[test]
fn ready_prompt_is_the_fixed_request() {
    let prompt = sample_prompt();
    assert_eq!(
        prompt.ready_prompt(),
        "Если Вы загрузили все фотографии, то отправьте слово: Готово"
    );
}
