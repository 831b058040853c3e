use vstd::prelude::*;

use crate::config::ProjectConfig;
use crate::text::contains_seq;

verus! {

// ---------------------------------------------------------------------------
// Package manifest
// ---------------------------------------------------------------------------

/// The dev-run command: the accelerator flag is appended exactly when the
/// accelerator was chosen.
pub open spec fn spec_dev_command(use_turbo: bool) -> Seq<char> {
    if use_turbo {
        "next dev --turbo"@
    } else {
        "next dev"@
    }
}

/// The two extra dependency entries appended to the dependency block when
/// the data-fetching library was chosen; empty otherwise.
pub open spec fn spec_react_query_deps(use_react_query: bool) -> Seq<char> {
    if use_react_query {
        (r#",
    "@tanstack/react-query": "^5.59.0",
    "@tanstack/react-query-devtools": "^5.59.0""#)@
    } else {
        Seq::<char>::empty()
    }
}

pub open spec fn spec_package_json(
    name: Seq<char>,
    use_turbo: bool,
    use_react_query: bool,
) -> Seq<char> {
    (r#"{
  "name": ""#)@ + name + (r#"",
  "version": "0.1.0",
  "private": true,
  "scripts": {
    "dev": ""#)@ + spec_dev_command(use_turbo) + (r#"",
    "build": "next build",
    "start": "next start",
    "lint": "next lint",
    "lint:fix": "next lint --fix"
  },
  "dependencies": {
    "next": "^15.0.0",
    "react": "^19.0.0",
    "react-dom": "^19.0.0""#)@ + spec_react_query_deps(use_react_query) + (r#"
  },
  "devDependencies": {
    "@types/node": "^20.0.0",
    "@types/react": "^19.0.0",
    "@types/react-dom": "^19.0.0",
    "eslint": "^9.0.0",
    "eslint-config-next": "^15.0.0",
    "tailwindcss": "^4.0.0-alpha.31",
    "@tailwindcss/postcss": "^4.0.0-alpha.31",
    "typescript": "^5.0.0",
    "clsx": "^2.0.0",
    "tailwind-merge": "^2.0.0"
  }
}"#)@
}

/// The package manifest: the project name, the flag-dependent dev command,
/// and the dependency block with its optional data-fetching entries.
pub fn package_json_content(config: &ProjectConfig) -> (content: String)
    ensures
        content@ == spec_package_json(config.name@, config.use_turbo, config.use_react_query),
{
    let mut content = r#"{
  "name": ""#.to_owned();
    content.append(config.name.as_str());
    content.append(
        r#"",
  "version": "0.1.0",
  "private": true,
  "scripts": {
    "dev": ""#,
    );
    if config.use_turbo {
        content.append("next dev --turbo");
    } else {
        content.append("next dev");
    }
    content.append(
        r#"",
    "build": "next build",
    "start": "next start",
    "lint": "next lint",
    "lint:fix": "next lint --fix"
  },
  "dependencies": {
    "next": "^15.0.0",
    "react": "^19.0.0",
    "react-dom": "^19.0.0""#,
    );
    if config.use_react_query {
        content.append(
            r#",
    "@tanstack/react-query": "^5.59.0",
    "@tanstack/react-query-devtools": "^5.59.0""#,
        );
    }
    content.append(
        r#"
  },
  "devDependencies": {
    "@types/node": "^20.0.0",
    "@types/react": "^19.0.0",
    "@types/react-dom": "^19.0.0",
    "eslint": "^9.0.0",
    "eslint-config-next": "^15.0.0",
    "tailwindcss": "^4.0.0-alpha.31",
    "@tailwindcss/postcss": "^4.0.0-alpha.31",
    "typescript": "^5.0.0",
    "clsx": "^2.0.0",
    "tailwind-merge": "^2.0.0"
  }
}"#,
    );
    proof {
        assert(content@ =~= spec_package_json(
            config.name@,
            config.use_turbo,
            config.use_react_query,
        ));
    }
    content
}

// ---------------------------------------------------------------------------
// Flag-independent configuration files
// ---------------------------------------------------------------------------

pub open spec fn spec_tsconfig() -> Seq<char> {
    (r#"{
  "compilerOptions": {
    "target": "es5",
    "lib": ["dom", "dom.iterable", "es6"],
    "allowJs": true,
    "skipLibCheck": true,
    "strict": true,
    "noEmit": true,
    "esModuleInterop": true,
    "module": "esnext",
    "moduleResolution": "bundler",
    "resolveJsonModule": true,
    "isolatedModules": true,
    "jsx": "preserve",
    "incremental": true,
    "plugins": [
      {
        "name": "next"
      }
    ],
    "paths": {
      "@/*": ["./src/*"],
      "@/components/*": ["./src/components/*"],
      "@/libs/*": ["./src/libs/*"],
      "@/hooks/*": ["./src/hooks/*"],
      "@/types/*": ["./src/types/*"],
      "@/constants/*": ["./src/constants/*"],
      "@/assets/*": ["./src/assets/*"]
    }
  },
  "include": ["next-env.d.ts", "**/*.ts", "**/*.tsx", ".next/types/**/*.ts"],
  "exclude": ["node_modules"]
}"#)@
}

/// The type-check configuration, identical for every project.
pub fn tsconfig_content() -> (content: String)
    ensures
        content@ == spec_tsconfig(),
{
    r#"{
  "compilerOptions": {
    "target": "es5",
    "lib": ["dom", "dom.iterable", "es6"],
    "allowJs": true,
    "skipLibCheck": true,
    "strict": true,
    "noEmit": true,
    "esModuleInterop": true,
    "module": "esnext",
    "moduleResolution": "bundler",
    "resolveJsonModule": true,
    "isolatedModules": true,
    "jsx": "preserve",
    "incremental": true,
    "plugins": [
      {
        "name": "next"
      }
    ],
    "paths": {
      "@/*": ["./src/*"],
      "@/components/*": ["./src/components/*"],
      "@/libs/*": ["./src/libs/*"],
      "@/hooks/*": ["./src/hooks/*"],
      "@/types/*": ["./src/types/*"],
      "@/constants/*": ["./src/constants/*"],
      "@/assets/*": ["./src/assets/*"]
    }
  },
  "include": ["next-env.d.ts", "**/*.ts", "**/*.tsx", ".next/types/**/*.ts"],
  "exclude": ["node_modules"]
}"#.to_owned()
}

pub open spec fn spec_postcss_config() -> Seq<char> {
    (r#"const config = {
    plugins: {
        "@tailwindcss/postcss": {},
    },
};
export default config;
"#)@
}

/// The CSS-processor configuration, identical for every project.
pub fn postcss_config_content() -> (content: String)
    ensures
        content@ == spec_postcss_config(),
{
    r#"const config = {
    plugins: {
        "@tailwindcss/postcss": {},
    },
};
export default config;
"#.to_owned()
}

pub open spec fn spec_next_config() -> Seq<char> {
    (r#"import type { NextConfig } from "next";

const nextConfig: NextConfig = {
  reactStrictMode: true,
  typescript: {
    ignoreBuildErrors: false,
  },
  eslint: {
    ignoreDuringBuilds: false,
  },
};

export default nextConfig;"#)@
}

/// The framework configuration, identical for every project.
pub fn next_config_content() -> (content: String)
    ensures
        content@ == spec_next_config(),
{
    r#"import type { NextConfig } from "next";

const nextConfig: NextConfig = {
  reactStrictMode: true,
  typescript: {
    ignoreBuildErrors: false,
  },
  eslint: {
    ignoreDuringBuilds: false,
  },
};

export default nextConfig;"#.to_owned()
}

pub open spec fn spec_eslint_config() -> Seq<char> {
    (r#"{
  "extends": ["next/core-web-vitals"],
  "rules": {
    "prefer-const": "error",
    "no-unused-vars": "warn",
    "no-console": "warn"
  }
}"#)@
}

/// The lint configuration, identical for every project.
pub fn eslint_config_content() -> (content: String)
    ensures
        content@ == spec_eslint_config(),
{
    r#"{
  "extends": ["next/core-web-vitals"],
  "rules": {
    "prefer-const": "error",
    "no-unused-vars": "warn",
    "no-console": "warn"
  }
}"#.to_owned()
}

pub open spec fn spec_gitignore() -> Seq<char> {
    (r#"# Dependencies
/node_modules
/.pnp
.pnp.js

# Testing
/coverage

# Next.js
/.next/
/out/

# Production
/build

# Misc
.DS_Store
*.pem

# Debug
npm-debug.log*
yarn-debug.log*
yarn-error.log*
pnpm-debug.log*

# Local env files
.env*.local

# Vercel
.vercel

# TypeScript
*.tsbuildinfo
next-env.d.ts
"#)@
}

/// The ignore file, identical for every project.
pub fn gitignore_content() -> (content: String)
    ensures
        content@ == spec_gitignore(),
{
    r#"# Dependencies
/node_modules
/.pnp
.pnp.js

# Testing
/coverage

# Next.js
/.next/
/out/

# Production
/build

# Misc
.DS_Store
*.pem

# Debug
npm-debug.log*
yarn-debug.log*
yarn-error.log*
pnpm-debug.log*

# Local env files
.env*.local

# Vercel
.vercel

# TypeScript
*.tsbuildinfo
next-env.d.ts
"#.to_owned()
}

pub open spec fn spec_npmrc() -> Seq<char> {
    (r#"auto-install-peers=true
strict-peer-dependencies=false
"#)@
}

/// The package-manager configuration, identical for every project.
pub fn npmrc_content() -> (content: String)
    ensures
        content@ == spec_npmrc(),
{
    r#"auto-install-peers=true
strict-peer-dependencies=false
"#.to_owned()
}

// ---------------------------------------------------------------------------
// Application sources
// ---------------------------------------------------------------------------

/// The import line prepended to the application shell when the data-fetching
/// library was chosen; empty otherwise.
pub open spec fn spec_query_import(use_react_query: bool) -> Seq<char> {
    if use_react_query {
        "import { QueryProvider } from '@/libs/query-provider'\n"@
    } else {
        Seq::<char>::empty()
    }
}

/// The opening wrapper tag around the children placeholder when the
/// data-fetching library was chosen; empty otherwise.
pub open spec fn spec_query_wrapper_open(use_react_query: bool) -> Seq<char> {
    if use_react_query {
        "<QueryProvider>"@
    } else {
        Seq::<char>::empty()
    }
}

/// The closing wrapper tag around the children placeholder when the
/// data-fetching library was chosen; empty otherwise.
pub open spec fn spec_query_wrapper_close(use_react_query: bool) -> Seq<char> {
    if use_react_query {
        "</QueryProvider>"@
    } else {
        Seq::<char>::empty()
    }
}

pub open spec fn spec_app_layout(name: Seq<char>, use_react_query: bool) -> Seq<char> {
    (r#"import type { Metadata } from 'next'
import { Inter } from 'next/font/google'
import '@/styles/globals.css'
"#)@ + spec_query_import(use_react_query) + (r#"
const inter = Inter({ subsets: ['latin'] })

export const metadata: Metadata = {
  title: '"#)@ + name + (r#"',
  description: 'Generated with AUI Next.js Generator',
}

export default function RootLayout({
  children,
}: {
  children: React.ReactNode
}) {
  return (
    <html lang="en">
      <body className={inter.className}>
        "#)@ + spec_query_wrapper_open(use_react_query) + (r#"
          {children}
        "#)@ + spec_query_wrapper_close(use_react_query) + (r#"
      </body>
    </html>
  )
}
"#)@
}

/// The application shell: the project name as the page title, and, when the
/// data-fetching library was chosen, its provider imported and wrapped
/// around the children placeholder.
pub fn app_layout_content(project_name: &str, config: &ProjectConfig) -> (content: String)
    ensures
        content@ == spec_app_layout(project_name@, config.use_react_query),
{
    let mut content = r#"import type { Metadata } from 'next'
import { Inter } from 'next/font/google'
import '@/styles/globals.css'
"#.to_owned();
    if config.use_react_query {
        content.append("import { QueryProvider } from '@/libs/query-provider'\n");
    }
    content.append(
        r#"
const inter = Inter({ subsets: ['latin'] })

export const metadata: Metadata = {
  title: '"#,
    );
    content.append(project_name);
    content.append(
        r#"',
  description: 'Generated with AUI Next.js Generator',
}

export default function RootLayout({
  children,
}: {
  children: React.ReactNode
}) {
  return (
    <html lang="en">
      <body className={inter.className}>
        "#,
    );
    if config.use_react_query {
        content.append("<QueryProvider>");
    }
    content.append(
        r#"
          {children}
        "#,
    );
    if config.use_react_query {
        content.append("</QueryProvider>");
    }
    content.append(
        r#"
      </body>
    </html>
  )
}
"#,
    );
    proof {
        assert(content@ =~= spec_app_layout(project_name@, config.use_react_query));
    }
    content
}

pub open spec fn spec_app_page(name: Seq<char>) -> Seq<char> {
    (r#"export default function Home() {
  return (
    <main className="flex min-h-screen flex-col items-center justify-center p-24">
      <div className="z-10 max-w-5xl w-full items-center justify-between font-mono text-sm lg:flex">
        <h1 className="text-4xl font-bold text-center lg:text-left">
          Welcome to{' '}
          <span className="text-blue-600">"#)@ + name + (r#"</span>
        </h1>
      </div>

      <div className="mt-8 grid text-center lg:max-w-5xl lg:w-full lg:mb-0 lg:grid-cols-3 lg:text-left">
        <div className="group rounded-lg border border-transparent px-5 py-4 transition-colors hover:border-gray-300 hover:bg-gray-100">
          <h2 className="mb-3 text-2xl font-semibold">
            Next.js 15
          </h2>
          <p className="m-0 max-w-[30ch] text-sm opacity-50">
            The React Framework for Production with App Router
          </p>
        </div>

        <div className="group rounded-lg border border-transparent px-5 py-4 transition-colors hover:border-gray-300 hover:bg-gray-100">
          <h2 className="mb-3 text-2xl font-semibent">
            Tailwind CSS
          </h2>
          <p className="m-0 max-w-[30ch] text-sm opacity-50">
            Utility-first CSS framework for rapid UI development
          </p>
        </div>

        <div className="group rounded-lg border border-transparent px-5 py-4 transition-colors hover:border-gray-300 hover:bg-gray-100">
          <h2 className="mb-3 text-2xl font-semibold">
            TypeScript
          </h2>
          <p className="m-0 max-w-[30ch] text-sm opacity-50">
            Type safety and enhanced developer experience
          </p>
        </div>
      </div>
    </main>
  )
}
"#)@
}

/// The home page, with the project name in its heading.
pub fn app_page_content(project_name: &str) -> (content: String)
    ensures
        content@ == spec_app_page(project_name@),
{
    let mut content = r#"export default function Home() {
  return (
    <main className="flex min-h-screen flex-col items-center justify-center p-24">
      <div className="z-10 max-w-5xl w-full items-center justify-between font-mono text-sm lg:flex">
        <h1 className="text-4xl font-bold text-center lg:text-left">
          Welcome to{' '}
          <span className="text-blue-600">"#.to_owned();
    content.append(project_name);
    content.append(
        r#"</span>
        </h1>
      </div>

      <div className="mt-8 grid text-center lg:max-w-5xl lg:w-full lg:mb-0 lg:grid-cols-3 lg:text-left">
        <div className="group rounded-lg border border-transparent px-5 py-4 transition-colors hover:border-gray-300 hover:bg-gray-100">
          <h2 className="mb-3 text-2xl font-semibold">
            Next.js 15
          </h2>
          <p className="m-0 max-w-[30ch] text-sm opacity-50">
            The React Framework for Production with App Router
          </p>
        </div>

        <div className="group rounded-lg border border-transparent px-5 py-4 transition-colors hover:border-gray-300 hover:bg-gray-100">
          <h2 className="mb-3 text-2xl font-semibent">
            Tailwind CSS
          </h2>
          <p className="m-0 max-w-[30ch] text-sm opacity-50">
            Utility-first CSS framework for rapid UI development
          </p>
        </div>

        <div className="group rounded-lg border border-transparent px-5 py-4 transition-colors hover:border-gray-300 hover:bg-gray-100">
          <h2 className="mb-3 text-2xl font-semibold">
            TypeScript
          </h2>
          <p className="m-0 max-w-[30ch] text-sm opacity-50">
            Type safety and enhanced developer experience
          </p>
        </div>
      </div>
    </main>
  )
}
"#,
    );
    proof {
        assert(content@ =~= spec_app_page(project_name@));
    }
    content
}

pub open spec fn spec_globals_css() -> Seq<char> {
    (r#"@import "tailwindcss";

/* Custom CSS Variables */
:root {
  --background: #ffffff;
  --foreground: #171717;
}

@media (prefers-color-scheme: dark) {
  :root {
    --background: #0a0a0a;
    --foreground: #ededed;
  }
}

/* Base Styles */
body {
  color: var(--foreground);
  background: var(--background);
  font-family: Inter, system-ui, -apple-system, sans-serif;
}

/* Custom Utility Classes */
@utility text-balance {
  text-wrap: balance;
}

/* Component Styles */
@layer components {
  .btn {
    @apply font-medium rounded-md transition-colors focus:outline-none focus:ring-2 focus:ring-offset-2;
  }

  .btn-primary {
    @apply bg-blue-600 text-white hover:bg-blue-700 focus:ring-blue-500;
  }

  .btn-secondary {
    @apply bg-gray-600 text-white hover:bg-gray-700 focus:ring-gray-500;
  }

  .btn-outline {
    @apply border border-gray-300 text-gray-700 hover:bg-gray-50 focus:ring-blue-500;
  }
}
"#)@
}

/// The global stylesheet, identical for every project.
pub fn globals_css_content() -> (content: String)
    ensures
        content@ == spec_globals_css(),
{
    r#"@import "tailwindcss";

/* Custom CSS Variables */
:root {
  --background: #ffffff;
  --foreground: #171717;
}

@media (prefers-color-scheme: dark) {
  :root {
    --background: #0a0a0a;
    --foreground: #ededed;
  }
}

/* Base Styles */
body {
  color: var(--foreground);
  background: var(--background);
  font-family: Inter, system-ui, -apple-system, sans-serif;
}

/* Custom Utility Classes */
@utility text-balance {
  text-wrap: balance;
}

/* Component Styles */
@layer components {
  .btn {
    @apply font-medium rounded-md transition-colors focus:outline-none focus:ring-2 focus:ring-offset-2;
  }

  .btn-primary {
    @apply bg-blue-600 text-white hover:bg-blue-700 focus:ring-blue-500;
  }

  .btn-secondary {
    @apply bg-gray-600 text-white hover:bg-gray-700 focus:ring-gray-500;
  }

  .btn-outline {
    @apply border border-gray-300 text-gray-700 hover:bg-gray-50 focus:ring-blue-500;
  }
}
"#.to_owned()
}

pub open spec fn spec_button_component() -> Seq<char> {
    (r#"import React from 'react'

interface ButtonProps extends React.ButtonHTMLAttributes<HTMLButtonElement> {
  variant?: 'primary' | 'secondary' | 'outline'
  size?: 'sm' | 'md' | 'lg'
}

export const Button: React.FC<ButtonProps> = ({
  children,
  variant = 'primary',
  size = 'md',
  className = '',
  ...props
}) => {
  const baseClasses = 'font-medium rounded-md transition-colors focus:outline-none focus:ring-2 focus:ring-offset-2'

  const variantClasses = {
    primary: 'bg-blue-600 text-white hover:bg-blue-700 focus:ring-blue-500',
    secondary: 'bg-gray-600 text-white hover:bg-gray-700 focus:ring-gray-500',
    outline: 'border border-gray-300 text-gray-700 hover:bg-gray-50 focus:ring-blue-500'
  }

  const sizeClasses = {
    sm: 'px-3 py-1.5 text-sm',
    md: 'px-4 py-2 text-base',
    lg: 'px-6 py-3 text-lg'
  }

  return (
    <button
      className={`${baseClasses} ${variantClasses[variant]} ${sizeClasses[size]} ${className}`}
      {...props}
    >
      {children}
    </button>
  )
}
"#)@
}

/// The reusable UI component, identical for every project.
pub fn button_component_content() -> (content: String)
    ensures
        content@ == spec_button_component(),
{
    r#"import React from 'react'

interface ButtonProps extends React.ButtonHTMLAttributes<HTMLButtonElement> {
  variant?: 'primary' | 'secondary' | 'outline'
  size?: 'sm' | 'md' | 'lg'
}

export const Button: React.FC<ButtonProps> = ({
  children,
  variant = 'primary',
  size = 'md',
  className = '',
  ...props
}) => {
  const baseClasses = 'font-medium rounded-md transition-colors focus:outline-none focus:ring-2 focus:ring-offset-2'

  const variantClasses = {
    primary: 'bg-blue-600 text-white hover:bg-blue-700 focus:ring-blue-500',
    secondary: 'bg-gray-600 text-white hover:bg-gray-700 focus:ring-gray-500',
    outline: 'border border-gray-300 text-gray-700 hover:bg-gray-50 focus:ring-blue-500'
  }

  const sizeClasses = {
    sm: 'px-3 py-1.5 text-sm',
    md: 'px-4 py-2 text-base',
    lg: 'px-6 py-3 text-lg'
  }

  return (
    <button
      className={`${baseClasses} ${variantClasses[variant]} ${sizeClasses[size]} ${className}`}
      {...props}
    >
      {children}
    </button>
  )
}
"#.to_owned()
}

// ---------------------------------------------------------------------------
// Data-fetching library integration
// ---------------------------------------------------------------------------

pub open spec fn spec_query_provider() -> Seq<char> {
    (r#"'use client'

import { QueryClient, QueryClientProvider } from '@tanstack/react-query'
import { ReactQueryDevtools } from '@tanstack/react-query-devtools'
import { useState, type ReactNode } from 'react'

interface QueryProviderProps {
  children: ReactNode
}

export function QueryProvider({ children }: QueryProviderProps) {
  const [queryClient] = useState(
    () =>
      new QueryClient({
        defaultOptions: {
          queries: {
            // With SSR, we usually want to set some default staleTime
            // above 0 to avoid refetching immediately on the client
            staleTime: 60 * 1000, // 1 minute
            retry: 1,
          },
        },
      })
  )

  return (
    <QueryClientProvider client={queryClient}>
      {children}
      <ReactQueryDevtools initialIsOpen={false} />
    </QueryClientProvider>
  )
}
"#)@
}

/// The data-library provider wrapper, emitted only with the data-fetching
/// library.
pub fn query_provider_content() -> (content: String)
    ensures
        content@ == spec_query_provider(),
{
    r#"'use client'

import { QueryClient, QueryClientProvider } from '@tanstack/react-query'
import { ReactQueryDevtools } from '@tanstack/react-query-devtools'
import { useState, type ReactNode } from 'react'

interface QueryProviderProps {
  children: ReactNode
}

export function QueryProvider({ children }: QueryProviderProps) {
  const [queryClient] = useState(
    () =>
      new QueryClient({
        defaultOptions: {
          queries: {
            // With SSR, we usually want to set some default staleTime
            // above 0 to avoid refetching immediately on the client
            staleTime: 60 * 1000, // 1 minute
            retry: 1,
          },
        },
      })
  )

  return (
    <QueryClientProvider client={queryClient}>
      {children}
      <ReactQueryDevtools initialIsOpen={false} />
    </QueryClientProvider>
  )
}
"#.to_owned()
}

pub open spec fn spec_api_client() -> Seq<char> {
    (r#"// API configuration and utilities for React Query

const API_BASE_URL = process.env.NEXT_PUBLIC_API_URL || 'https://jsonplaceholder.typicode.com'

export class ApiError extends Error {
  constructor(public status: number, message: string) {
    super(message)
    this.name = 'ApiError'
  }
}

export async function apiRequest<T>(
  endpoint: string,
  options: RequestInit = {}
): Promise<T> {
  const url = `${API_BASE_URL}${endpoint}`

  const response = await fetch(url, {
    headers: {
      'Content-Type': 'application/json',
      ...options.headers,
    },
    ...options,
  })

  if (!response.ok) {
    throw new ApiError(response.status, `HTTP ${response.status}: ${response.statusText}`)
  }

  return response.json()
}

// Example API functions using React Query patterns
export const api = {
  // GET requests
  get: <T>(endpoint: string) => apiRequest<T>(endpoint),

  // POST requests
  post: <T>(endpoint: string, data: unknown) =>
    apiRequest<T>(endpoint, {
      method: 'POST',
      body: JSON.stringify(data),
    }),

  // PUT requests
  put: <T>(endpoint: string, data: unknown) =>
    apiRequest<T>(endpoint, {
      method: 'PUT',
      body: JSON.stringify(data),
    }),

  // DELETE requests
  delete: <T>(endpoint: string) =>
    apiRequest<T>(endpoint, {
      method: 'DELETE',
    }),
}
"#)@
}

/// The API client helper, emitted only with the data-fetching library.
pub fn api_client_content() -> (content: String)
    ensures
        content@ == spec_api_client(),
{
    r#"// API configuration and utilities for React Query

const API_BASE_URL = process.env.NEXT_PUBLIC_API_URL || 'https://jsonplaceholder.typicode.com'

export class ApiError extends Error {
  constructor(public status: number, message: string) {
    super(message)
    this.name = 'ApiError'
  }
}

export async function apiRequest<T>(
  endpoint: string,
  options: RequestInit = {}
): Promise<T> {
  const url = `${API_BASE_URL}${endpoint}`

  const response = await fetch(url, {
    headers: {
      'Content-Type': 'application/json',
      ...options.headers,
    },
    ...options,
  })

  if (!response.ok) {
    throw new ApiError(response.status, `HTTP ${response.status}: ${response.statusText}`)
  }

  return response.json()
}

// Example API functions using React Query patterns
export const api = {
  // GET requests
  get: <T>(endpoint: string) => apiRequest<T>(endpoint),

  // POST requests
  post: <T>(endpoint: string, data: unknown) =>
    apiRequest<T>(endpoint, {
      method: 'POST',
      body: JSON.stringify(data),
    }),

  // PUT requests
  put: <T>(endpoint: string, data: unknown) =>
    apiRequest<T>(endpoint, {
      method: 'PUT',
      body: JSON.stringify(data),
    }),

  // DELETE requests
  delete: <T>(endpoint: string) =>
    apiRequest<T>(endpoint, {
      method: 'DELETE',
    }),
}
"#.to_owned()
}

pub open spec fn spec_example_hooks() -> Seq<char> {
    (r#"// Example React Query hooks

import { useQuery, useMutation, useQueryClient } from '@tanstack/react-query'
import { api } from '@/libs/api'

// Example types (replace with your actual types)
interface Post {
  id: number
  title: string
  body: string
  userId: number
}

interface User {
  id: number
  name: string
  email: string
}

// Query hooks
export function usePosts() {
  return useQuery({
    queryKey: ['posts'],
    queryFn: () => api.get<Post[]>('/posts'),
  })
}

export function usePost(id: number) {
  return useQuery({
    queryKey: ['posts', id],
    queryFn: () => api.get<Post>(`/posts/${id}`),
    enabled: !!id, // Only run query if id exists
  })
}

export function useUser(id: number) {
  return useQuery({
    queryKey: ['users', id],
    queryFn: () => api.get<User>(`/users/${id}`),
    enabled: !!id,
  })
}

// Mutation hooks
export function useCreatePost() {
  const queryClient = useQueryClient()

  return useMutation({
    mutationFn: (newPost: Omit<Post, 'id'>) => api.post<Post>('/posts', newPost),
    onSuccess: () => {
      // Invalidate and refetch posts
      queryClient.invalidateQueries({ queryKey: ['posts'] })
    },
  })
}

export function useUpdatePost() {
  const queryClient = useQueryClient()

  return useMutation({
    mutationFn: (post: Post) => api.put<Post>(`/posts/${post.id}`, post),
    onSuccess: (data) => {
      // Update the specific post in cache
      queryClient.setQueryData(['posts', data.id], data)
      // Also invalidate the posts list
      queryClient.invalidateQueries({ queryKey: ['posts'] })
    },
  })
}

export function useDeletePost() {
  const queryClient = useQueryClient()

  return useMutation({
    mutationFn: (id: number) => api.delete(`/posts/${id}`),
    onSuccess: () => {
      // Invalidate posts list
      queryClient.invalidateQueries({ queryKey: ['posts'] })
    },
  })
}
"#)@
}

/// The example data-fetching hooks, emitted only with the data-fetching
/// library.
pub fn example_hooks_content() -> (content: String)
    ensures
        content@ == spec_example_hooks(),
{
    r#"// Example React Query hooks

import { useQuery, useMutation, useQueryClient } from '@tanstack/react-query'
import { api } from '@/libs/api'

// Example types (replace with your actual types)
interface Post {
  id: number
  title: string
  body: string
  userId: number
}

interface User {
  id: number
  name: string
  email: string
}

// Query hooks
export function usePosts() {
  return useQuery({
    queryKey: ['posts'],
    queryFn: () => api.get<Post[]>('/posts'),
  })
}

export function usePost(id: number) {
  return useQuery({
    queryKey: ['posts', id],
    queryFn: () => api.get<Post>(`/posts/${id}`),
    enabled: !!id, // Only run query if id exists
  })
}

export function useUser(id: number) {
  return useQuery({
    queryKey: ['users', id],
    queryFn: () => api.get<User>(`/users/${id}`),
    enabled: !!id,
  })
}

// Mutation hooks
export function useCreatePost() {
  const queryClient = useQueryClient()

  return useMutation({
    mutationFn: (newPost: Omit<Post, 'id'>) => api.post<Post>('/posts', newPost),
    onSuccess: () => {
      // Invalidate and refetch posts
      queryClient.invalidateQueries({ queryKey: ['posts'] })
    },
  })
}

export function useUpdatePost() {
  const queryClient = useQueryClient()

  return useMutation({
    mutationFn: (post: Post) => api.put<Post>(`/posts/${post.id}`, post),
    onSuccess: (data) => {
      // Update the specific post in cache
      queryClient.setQueryData(['posts', data.id], data)
      // Also invalidate the posts list
      queryClient.invalidateQueries({ queryKey: ['posts'] })
    },
  })
}

export function useDeletePost() {
  const queryClient = useQueryClient()

  return useMutation({
    mutationFn: (id: number) => api.delete(`/posts/${id}`),
    onSuccess: () => {
      // Invalidate posts list
      queryClient.invalidateQueries({ queryKey: ['posts'] })
    },
  })
}
"#.to_owned()
}

// ---------------------------------------------------------------------------
// README
// ---------------------------------------------------------------------------

pub open spec fn spec_readme(name: Seq<char>) -> Seq<char> {
    "# "@ + name + (r#"

A modern Next.js application with Tailwind CSS, ESLint, and TypeScript.

## Getting Started

Install dependencies:

```bash
pnpm install
```

Run the development server:

```bash
pnpm dev
```

Open [http://localhost:3000](http://localhost:3000) with your browser to see the result.

## Features

- ⚡ Next.js 15 with App Router
- 🎨 Tailwind CSS for styling
- 📝 TypeScript for type safety
- 🔧 ESLint for code linting
- 🚀 pnpm for fast package management

## Project Structure

```
"#)@ + name + (r#"
├── src/
│   ├── app/               # Next.js App Router pages
│   │   ├── layout.tsx
│   │   └── page.tsx
│   ├── components/        # UI Components (Table, Box, Text, Spinner, etc.)
│   │   └── Button.tsx
│   ├── constants/         # Static constants (Tabs, Roles, etc.)
│   ├── hooks/             # Custom Hooks (React Query, Zustand store)
│   ├── libs/              # Utilities (api.ts, dropdown.ts, formatter.ts)
│   ├── assets/            # Images, animations (e.g., Lottie files)
│   ├── types/             # Shared TypeScript types (API, DTOs)
│   ├── fonts/             # Custom fonts (THSarabun for PDFs)
│   └── styles/            # Tailwind config and global styles
│       └── globals.css
├── public/
├── tsconfig.json
└── package.json
```

## Tailwind CSS v4

This project uses Tailwind CSS v4 with CSS-based configuration. No separate config file needed - all customization is done through CSS imports and layers in `src/styles/globals.css`.

## Learn More

To learn more about the technologies used in this project:

- [Next.js Documentation](https://nextjs.org/docs)
- [Tailwind CSS](https://tailwindcss.com/docs)
- [TypeScript](https://www.typescriptlang.org/)

## Deploy

Deploy easily with [Vercel](https://vercel.com/):

[![Deploy with Vercel](https://vercel.com/button)](https://vercel.com/new/clone?repository-url=https://github.com/your-username/your-repo)
"#)@
}

/// The project README, with the project name as its heading and again at the
/// top of the structure block.
pub fn readme_content(project_name: &str) -> (content: String)
    ensures
        content@ == spec_readme(project_name@),
{
    let mut content = "# ".to_owned();
    content.append(project_name);
    content.append(
        r#"

A modern Next.js application with Tailwind CSS, ESLint, and TypeScript.

## Getting Started

Install dependencies:

```bash
pnpm install
```

Run the development server:

```bash
pnpm dev
```

Open [http://localhost:3000](http://localhost:3000) with your browser to see the result.

## Features

- ⚡ Next.js 15 with App Router
- 🎨 Tailwind CSS for styling
- 📝 TypeScript for type safety
- 🔧 ESLint for code linting
- 🚀 pnpm for fast package management

## Project Structure

```
"#,
    );
    content.append(project_name);
    content.append(
        r#"
├── src/
│   ├── app/               # Next.js App Router pages
│   │   ├── layout.tsx
│   │   └── page.tsx
│   ├── components/        # UI Components (Table, Box, Text, Spinner, etc.)
│   │   └── Button.tsx
│   ├── constants/         # Static constants (Tabs, Roles, etc.)
│   ├── hooks/             # Custom Hooks (React Query, Zustand store)
│   ├── libs/              # Utilities (api.ts, dropdown.ts, formatter.ts)
│   ├── assets/            # Images, animations (e.g., Lottie files)
│   ├── types/             # Shared TypeScript types (API, DTOs)
│   ├── fonts/             # Custom fonts (THSarabun for PDFs)
│   └── styles/            # Tailwind config and global styles
│       └── globals.css
├── public/
├── tsconfig.json
└── package.json
```

## Tailwind CSS v4

This project uses Tailwind CSS v4 with CSS-based configuration. No separate config file needed - all customization is done through CSS imports and layers in `src/styles/globals.css`.

## Learn More

To learn more about the technologies used in this project:

- [Next.js Documentation](https://nextjs.org/docs)
- [Tailwind CSS](https://tailwindcss.com/docs)
- [TypeScript](https://www.typescriptlang.org/)

## Deploy

Deploy easily with [Vercel](https://vercel.com/):

[![Deploy with Vercel](https://vercel.com/button)](https://vercel.com/new/clone?repository-url=https://github.com/your-username/your-repo)
"#,
    );
    proof {
        assert(content@ =~= spec_readme(project_name@));
    }
    content
}

// ---------------------------------------------------------------------------
// Properties of the flag-dependent content
// ---------------------------------------------------------------------------

/// A sequence contains any middle section it is assembled around.
proof fn lemma_concat_contains(s: Seq<char>, prefix: Seq<char>, mid: Seq<char>, suffix: Seq<char>)
    requires
        s == prefix + mid + suffix,
    ensures
        contains_seq(s, mid),
{
    let i: int = prefix.len() as int;
    assert(s.subrange(i, i + mid.len() as int) =~= mid);
    assert(contains_seq(s, mid));
}

/// The optional data-fetching markers are all non-empty exactly when the
/// data-fetching library was chosen: the extra dependency entries, the
/// provider import line, and the two wrapper tags stand or fall together.
pub proof fn lemma_react_query_markers(use_react_query: bool)
    ensures
        spec_react_query_deps(use_react_query).len() > 0 <==> use_react_query,
        spec_query_import(use_react_query).len() > 0 <==> use_react_query,
        spec_query_wrapper_open(use_react_query).len() > 0 <==> use_react_query,
        spec_query_wrapper_close(use_react_query).len() > 0 <==> use_react_query,
{
    reveal_strlit(
        r#",
    "@tanstack/react-query": "^5.59.0",
    "@tanstack/react-query-devtools": "^5.59.0""#,
    );
    reveal_strlit("import { QueryProvider } from '@/libs/query-provider'\n");
    reveal_strlit("<QueryProvider>");
    reveal_strlit("</QueryProvider>");
}

/// Every name-bearing file reproduces the project name: the package
/// manifest's name field, the shell's title field, the home page's heading,
/// and the README.
pub proof fn lemma_content_embeds_name(name: Seq<char>, use_turbo: bool, use_react_query: bool)
    ensures
        contains_seq(spec_package_json(name, use_turbo, use_react_query), name),
        contains_seq(spec_app_layout(name, use_react_query), name),
        contains_seq(spec_app_page(name), name),
        contains_seq(spec_readme(name), name),
{
    let pkg = spec_package_json(name, use_turbo, use_react_query);
    let pkg_prefix = (r#"{
  "name": ""#)@;
    let pkg_suffix = (r#"",
  "version": "0.1.0",
  "private": true,
  "scripts": {
    "dev": ""#)@ + spec_dev_command(use_turbo) + (r#"",
    "build": "next build",
    "start": "next start",
    "lint": "next lint",
    "lint:fix": "next lint --fix"
  },
  "dependencies": {
    "next": "^15.0.0",
    "react": "^19.0.0",
    "react-dom": "^19.0.0""#)@ + spec_react_query_deps(use_react_query) + (r#"
  },
  "devDependencies": {
    "@types/node": "^20.0.0",
    "@types/react": "^19.0.0",
    "@types/react-dom": "^19.0.0",
    "eslint": "^9.0.0",
    "eslint-config-next": "^15.0.0",
    "tailwindcss": "^4.0.0-alpha.31",
    "@tailwindcss/postcss": "^4.0.0-alpha.31",
    "typescript": "^5.0.0",
    "clsx": "^2.0.0",
    "tailwind-merge": "^2.0.0"
  }
}"#)@;
    assert(pkg =~= pkg_prefix + name + pkg_suffix);
    lemma_concat_contains(pkg, pkg_prefix, name, pkg_suffix);

    let layout = spec_app_layout(name, use_react_query);
    let layout_prefix = (r#"import type { Metadata } from 'next'
import { Inter } from 'next/font/google'
import '@/styles/globals.css'
"#)@ + spec_query_import(use_react_query) + (r#"
const inter = Inter({ subsets: ['latin'] })

export const metadata: Metadata = {
  title: '"#)@;
    let layout_suffix = (r#"',
  description: 'Generated with AUI Next.js Generator',
}

export default function RootLayout({
  children,
}: {
  children: React.ReactNode
}) {
  return (
    <html lang="en">
      <body className={inter.className}>
        "#)@ + spec_query_wrapper_open(use_react_query) + (r#"
          {children}
        "#)@ + spec_query_wrapper_close(use_react_query) + (r#"
      </body>
    </html>
  )
}
"#)@;
    assert(layout =~= layout_prefix + name + layout_suffix);
    lemma_concat_contains(layout, layout_prefix, name, layout_suffix);

    let page = spec_app_page(name);
    let page_prefix = (r#"export default function Home() {
  return (
    <main className="flex min-h-screen flex-col items-center justify-center p-24">
      <div className="z-10 max-w-5xl w-full items-center justify-between font-mono text-sm lg:flex">
        <h1 className="text-4xl font-bold text-center lg:text-left">
          Welcome to{' '}
          <span className="text-blue-600">"#)@;
    let page_suffix = page.subrange(
        page_prefix.len() + name.len() as int,
        page.len() as int,
    );
    assert(page =~= page_prefix + name + page_suffix);
    lemma_concat_contains(page, page_prefix, name, page_suffix);

    let readme = spec_readme(name);
    let readme_prefix = "# "@;
    let readme_suffix = readme.subrange(
        readme_prefix.len() + name.len() as int,
        readme.len() as int,
    );
    assert(readme =~= readme_prefix + name + readme_suffix);
    lemma_concat_contains(readme, readme_prefix, name, readme_suffix);
}

/// The README reproduces the project name in both specified locations: as
/// the heading, and again at the top of the structure block.
pub proof fn lemma_readme_name_positions(name: Seq<char>)
    ensures
        spec_readme(name).subrange(2, 2 + name.len() as int) == name,
        exists|j: int|
            2 + name.len() <= j && j + name.len() <= spec_readme(name).len()
                && #[trigger] spec_readme(name).subrange(j, j + name.len() as int) == name,
{
    let readme = spec_readme(name);
    reveal_strlit("# ");
    assert(readme.subrange(2, 2 + name.len() as int) =~= name);
    let mid = (r#"

A modern Next.js application with Tailwind CSS, ESLint, and TypeScript.

## Getting Started

Install dependencies:

```bash
pnpm install
```

Run the development server:

```bash
pnpm dev
```

Open [http://localhost:3000](http://localhost:3000) with your browser to see the result.

## Features

- ⚡ Next.js 15 with App Router
- 🎨 Tailwind CSS for styling
- 📝 TypeScript for type safety
- 🔧 ESLint for code linting
- 🚀 pnpm for fast package management

## Project Structure

```
"#)@;
    let j: int = 2 + name.len() as int + mid.len() as int;
    assert(readme.subrange(j, j + name.len() as int) =~= name);
}

/// The package manifest embeds the dev-run command of its configuration.
pub proof fn lemma_manifest_embeds_dev_command(
    name: Seq<char>,
    use_turbo: bool,
    use_react_query: bool,
)
    ensures
        contains_seq(
            spec_package_json(name, use_turbo, use_react_query),
            spec_dev_command(use_turbo),
        ),
{
    let pkg = spec_package_json(name, use_turbo, use_react_query);
    let prefix = (r#"{
  "name": ""#)@ + name + (r#"",
  "version": "0.1.0",
  "private": true,
  "scripts": {
    "dev": ""#)@;
    let dev = spec_dev_command(use_turbo);
    let suffix = pkg.subrange(prefix.len() + dev.len() as int, pkg.len() as int);
    assert(pkg =~= prefix + dev + suffix);
    lemma_concat_contains(pkg, prefix, dev, suffix);
}

/// The dev-run command contains the accelerator flag exactly when the
/// accelerator was chosen.
pub proof fn lemma_dev_command_accelerator(use_turbo: bool)
    ensures
        contains_seq(spec_dev_command(use_turbo), "--turbo"@) <==> use_turbo,
{
    reveal_strlit("next dev --turbo");
    reveal_strlit("next dev");
    reveal_strlit("--turbo");
    if use_turbo {
        let s = "next dev --turbo"@;
        let p = "--turbo"@;
        assert(s.subrange(9, 9 + p.len() as int) =~= p);
        assert(contains_seq(spec_dev_command(true), "--turbo"@));
    } else {
        let s = "next dev"@;
        assert forall|i: int| 0 <= i && i + 7 <= 8 implies #[trigger] s.subrange(i, i + 7)
            != "--turbo"@ by {
            if i == 0 {
                assert(s.subrange(0, 7)[0] == 'n');
            } else {
                assert(s.subrange(i, i + 7)[0] == s[i]);
                assert(s[1] == 'e');
            }
            assert("--turbo"@[0] == '-');
        }
    }
}

} // verus!
