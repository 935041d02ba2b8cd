use snake_game::game::Game;
use snake_game::snake::Direction;
use snake_game::snake::Point;
use snake_game::snake::Snake;

fn body_contains(snake: &Snake, p: Point) -> bool {
    snake.body.iter().any(|&q| q == p)
}

#[test]
fn move_forward_preserves_length() {
    let mut snake = Snake::new(Point { x: 2, y: 2 }, 5, 5);
    snake.grow();
    snake.grow();
    let len = snake.body.len();
    for _ in 0..12 {
        snake.move_forward();
        assert_eq!(snake.body.len(), len);
    }
}

#[test]
fn grow_adds_one_and_keeps_head() {
    let mut snake = Snake::new(Point { x: 2, y: 2 }, 5, 5);
    snake.move_forward();
    let head = snake.body[0];
    let len = snake.body.len();
    snake.grow();
    assert_eq!(snake.body.len(), len + 1);
    assert_eq!(snake.body[0], head);
    assert_eq!(snake.body[len], snake.body[len - 1]);
}

#[test]
fn change_direction_ignores_opposite() {
    let mut snake = Snake::new(Point { x: 2, y: 2 }, 5, 5);
    assert!(snake.direction == Direction::Right);
    snake.change_direction(Direction::Left);
    assert!(snake.direction == Direction::Right);
    snake.change_direction(Direction::Up);
    assert!(snake.direction == Direction::Up);
    snake.change_direction(Direction::Down);
    assert!(snake.direction == Direction::Up);
    snake.change_direction(Direction::Left);
    assert!(snake.direction == Direction::Left);
    snake.change_direction(Direction::Right);
    assert!(snake.direction == Direction::Left);
    snake.change_direction(Direction::Down);
    assert!(snake.direction == Direction::Down);
    snake.change_direction(Direction::Up);
    assert!(snake.direction == Direction::Down);
}

#[test]
fn generate_food_avoids_body() {
    let mut snake = Snake::new(Point { x: 1, y: 1 }, 4, 4);
    snake.grow();
    snake.move_forward();
    snake.grow();
    snake.move_forward();
    for _ in 0..50 {
        let food = Game::generate_food(&snake, 4, 4);
        assert!(food.x < 4 && food.y < 4);
        assert!(!body_contains(&snake, food));
    }
}

#[test]
fn movement_wraps_at_edges() {
    let mut right = Snake::new(Point { x: 4, y: 2 }, 5, 5);
    right.move_forward();
    assert_eq!(right.body[0], Point { x: 0, y: 2 });

    let mut left = Snake::new(Point { x: 0, y: 2 }, 5, 5);
    left.change_direction(Direction::Up);
    left.change_direction(Direction::Left);
    left.move_forward();
    assert_eq!(left.body[0], Point { x: 4, y: 2 });

    let mut down = Snake::new(Point { x: 2, y: 4 }, 5, 5);
    down.change_direction(Direction::Down);
    down.move_forward();
    assert_eq!(down.body[0], Point { x: 2, y: 0 });

    let mut up = Snake::new(Point { x: 2, y: 0 }, 5, 5);
    up.change_direction(Direction::Up);
    up.move_forward();
    assert_eq!(up.body[0], Point { x: 2, y: 4 });
}

#[test]
fn one_step_from_center() {
    let mut snake = Snake::new(Point { x: 2, y: 2 }, 5, 5);
    snake.move_forward();
    assert_eq!(snake.body[0], Point { x: 3, y: 2 });
    assert_eq!(snake.body.len(), 1);
}

#[test]
fn post_grow_duplicate_collision() {
    let mut snake = Snake::new(Point { x: 1, y: 1 }, 2, 2);
    snake.grow();
    assert_eq!(snake.body[0], Point { x: 1, y: 1 });
    assert_eq!(snake.body[1], Point { x: 1, y: 1 });
    assert!(snake.check_collision());

    snake.grow();
    snake.move_forward();
    assert_eq!(snake.body[0], Point { x: 0, y: 1 });
    assert!(!snake.check_collision());
    snake.move_forward();
    assert_eq!(snake.body[0], Point { x: 1, y: 1 });
    assert!(snake.check_collision());
}

#[test]
fn update_on_food_grows_and_relocates() {
    let snake = Snake::new(Point { x: 2, y: 3 }, 5, 5);
    let mut game = Game { snake, food: Point { x: 3, y: 3 }, width: 5, height: 5 };
    game.update();
    assert_eq!(game.snake.body[0], Point { x: 3, y: 3 });
    assert_eq!(game.snake.body.len(), 2);
    assert!(game.food.x < 5 && game.food.y < 5);
    assert!(!body_contains(&game.snake, game.food));
}

#[test]
fn update_off_food_keeps_length_and_food() {
    let snake = Snake::new(Point { x: 0, y: 0 }, 5, 5);
    let mut game = Game { snake, food: Point { x: 4, y: 4 }, width: 5, height: 5 };
    game.update();
    assert_eq!(game.snake.body[0], Point { x: 1, y: 0 });
    assert_eq!(game.snake.body.len(), 1);
    assert_eq!(game.food, Point { x: 4, y: 4 });
    assert!(!game.is_game_over());
}

#[test]
fn food_on_the_single_free_cell() {
    let snake = Snake::new(Point { x: 0, y: 0 }, 1, 2);
    let food = Game::generate_food(&snake, 1, 2);
    assert_eq!(food, Point { x: 0, y: 1 });
}

#[test]
fn find_free_cell_full_and_sparse() {
    let full = Snake::new(Point { x: 0, y: 0 }, 1, 1);
    assert!(Game::find_free_cell(&full, 1, 1).is_none());

    let sparse = Snake::new(Point { x: 0, y: 0 }, 1, 2);
    assert_eq!(Game::find_free_cell(&sparse, 1, 2), Some(Point { x: 0, y: 1 }));
}

#[test]
fn game_new_initial_state() {
    let game = Game::new(5, 5);
    assert_eq!(game.snake.body.len(), 1);
    assert_eq!(game.snake.body[0], Point { x: 2, y: 2 });
    assert!(game.snake.direction == Direction::Right);
    assert_eq!(game.width, 5);
    assert_eq!(game.height, 5);
    assert!(game.food.x < 5 && game.food.y < 5);
    assert_ne!(game.food, Point { x: 2, y: 2 });
    assert!(!game.is_game_over());
}

#[test]
fn occupies_matches_body() {
    let mut snake = Snake::new(Point { x: 1, y: 2 }, 4, 4);
    snake.grow();
    snake.move_forward();
    assert!(snake.occupies(Point { x: 2, y: 2 }));
    assert!(snake.occupies(Point { x: 1, y: 2 }));
    assert!(!snake.occupies(Point { x: 0, y: 0 }));
}
